use rcli::{verify_file, verify_path, OutputFormat, TextError, TextSignFormat};

#[test]
fn test_verify_input_file() {
    // An existing file is accepted: the project's own manifest when the
    // tests run from a checkout, else this test's source tree.
    let existing = if verify_file("Cargo.toml").is_ok() {
        "Cargo.toml"
    } else {
        "src/lib.rs"
    };
    assert_eq!(verify_file(existing), Ok(existing.into()));
    assert_eq!(verify_file("-"), Ok("-".into()));
    assert_eq!(verify_file("*"), Err("File does not exist".into()));
    assert_eq!(
        verify_file("non-existent-file"),
        Err("File does not exist".into())
    );
}

#[test]
fn test_verify_path_accepts_directory() {
    assert_eq!(verify_path("."), Ok(".".into()));
    assert_eq!(
        verify_path("Cargo.toml"),
        Err("Path does not exist or is not a directory")
    );
    assert_eq!(
        verify_path("no-such-directory"),
        Err("Path does not exist or is not a directory")
    );
}

#[test]
fn test_parse_text_format() {
    assert_eq!(
        rcli::cli::text::parse_format("blake3"),
        Ok(TextSignFormat::Blake3)
    );
    assert_eq!(
        rcli::cli::text::parse_format("BLAKE3"),
        Ok(TextSignFormat::Blake3)
    );
    assert_eq!(
        rcli::cli::text::parse_format("ed25519"),
        Ok(TextSignFormat::Ed25519)
    );
    assert_eq!(
        rcli::cli::text::parse_format("Ed25519"),
        Ok(TextSignFormat::Ed25519)
    );
    assert_eq!(
        rcli::cli::text::parse_format("sha256"),
        Err(TextError::InvalidFormat)
    );
    assert_eq!(
        rcli::cli::text::parse_format(""),
        Err(TextError::InvalidFormat)
    );
}

#[test]
fn test_parse_output_format() {
    assert_eq!(rcli::cli::csv::parse_format("json"), Ok(OutputFormat::Json));
    assert_eq!(rcli::cli::csv::parse_format("YAML"), Ok(OutputFormat::Yaml));
    assert_eq!(
        rcli::cli::csv::parse_format("toml"),
        Err(TextError::InvalidFormat)
    );
}

#[test]
fn test_format_tags_round_trip() {
    assert_eq!(TextSignFormat::Blake3.as_str(), "blake3");
    assert_eq!(TextSignFormat::Ed25519.as_str(), "ed25519");
    assert_eq!(OutputFormat::Json.as_str(), "json");
    assert_eq!(OutputFormat::Yaml.as_str(), "yaml");
    assert_eq!(
        rcli::cli::text::parse_format(TextSignFormat::Ed25519.as_str()),
        Ok(TextSignFormat::Ed25519)
    );
}

#[test]
fn test_error_messages() {
    assert_eq!(TextError::KeyMaterial.message(), "invalid key material");
    assert_eq!(TextError::Encoding.message(), "invalid signature encoding");
    assert_eq!(
        TextError::SignatureLength.message(),
        "invalid signature length"
    );
    assert_eq!(TextError::InvalidFormat.message(), "invalid format");
}

