use auto_pr::error::RunError;
use auto_pr::generator::PrGenerator;

#[test]
fn every_error_has_its_own_description() {
    let all = [
        RunError::MissingCredential,
        RunError::VcsCommand,
        RunError::Encoding,
        RunError::Template,
        RunError::Service,
        RunError::Decode,
        RunError::EmptyResponse,
        RunError::Io,
    ];
    for (i, a) in all.iter().enumerate() {
        assert!(!a.describe().is_empty());
        for b in all.iter().skip(i + 1) {
            assert_ne!(a.describe(), b.describe());
        }
    }
    assert_eq!(RunError::MissingCredential.describe(), "a required environment variable is not set");
}

#[test]
fn the_generator_keeps_its_settings() {
    let generator = PrGenerator::new(
        "pr_template.hbs".to_string(),
        vec!["**/dist/**".to_string(), "**/lib/**".to_string()],
        "key".to_string(),
        "token".to_string(),
    );
    assert_eq!(generator.template_path(), "pr_template.hbs");
    assert_eq!(generator.exclude_patterns(), &vec!["**/dist/**".to_string(), "**/lib/**".to_string()]);
    assert_eq!(generator.api_key(), "key");
    assert_eq!(generator.vcs_token(), "token");
}
