use rcli::{
    parse_base64_format, parse_format, verify_file, Base64DecodeOpts, Base64EncodeOpts,
    Base64Format, Base64Subcommand, Error, GenPassOpts, Opts, Subcommand, TextSignFormat,
    TextSignOpts, TextSubcommand, TextVerifyOpts,
};

#[test]
fn test_verify_input_file() {
    assert_eq!(verify_file("-"), Ok("-".into()));
    assert_eq!(verify_file("*"), Err("File not found".into()));
}

#[test]
fn test_parse_format_known_tags() {
    assert_eq!(parse_format("blake3"), Ok(TextSignFormat::Blake3));
    assert_eq!(parse_format("ed25519"), Ok(TextSignFormat::Ed25519));
    assert_eq!(parse_format("BLAKE3"), Ok(TextSignFormat::Blake3));
    assert_eq!(parse_format("Ed25519"), Ok(TextSignFormat::Ed25519));
}

#[test]
fn test_parse_format_unknown_tag() {
    assert_eq!(parse_format("sha256"), Err(Error::UnknownFormat));
    assert_eq!(parse_format(""), Err(Error::UnknownFormat));
    assert_eq!(parse_format("blake"), Err(Error::UnknownFormat));
}

#[test]
fn test_parse_base64_format() {
    assert_eq!(parse_base64_format("standard"), Ok(Base64Format::Standard));
    assert_eq!(parse_base64_format("urlsafe"), Ok(Base64Format::UrlSafe));
    assert_eq!(parse_base64_format("UrlSafe"), Ok(Base64Format::UrlSafe));
    assert_eq!(parse_base64_format("base64"), Err(Error::UnknownFormat));
}

#[test]
fn test_command_model() {
    let sign = Opts {
        cmd: Subcommand::Text(TextSubcommand::Sign(TextSignOpts {
            input: "-".to_string(),
            key: "key.bin".to_string(),
            format: TextSignFormat::Blake3,
        })),
    };
    assert!(matches!(
        sign.cmd,
        Subcommand::Text(TextSubcommand::Sign(TextSignOpts { ref key, .. })) if key == "key.bin"
    ));

    let verify = Opts {
        cmd: Subcommand::Text(TextSubcommand::Verify(TextVerifyOpts {
            input: "-".to_string(),
            key: "key.bin".to_string(),
            format: TextSignFormat::Ed25519,
            sig: "c2ln".to_string(),
        })),
    };
    assert!(matches!(
        verify.cmd,
        Subcommand::Text(TextSubcommand::Verify(TextVerifyOpts { ref sig, .. })) if sig == "c2ln"
    ));

    let encode = Opts {
        cmd: Subcommand::Base64(Base64Subcommand::Encode(Base64EncodeOpts {
            input: "-".to_string(),
            format: Base64Format::Standard,
        })),
    };
    assert!(matches!(encode.cmd, Subcommand::Base64(Base64Subcommand::Encode(_))));

    let decode = Opts {
        cmd: Subcommand::Base64(Base64Subcommand::Decode(Base64DecodeOpts {
            input: "file.txt".to_string(),
            format: Base64Format::UrlSafe,
        })),
    };
    assert!(matches!(
        decode.cmd,
        Subcommand::Base64(Base64Subcommand::Decode(Base64DecodeOpts { ref input, .. }))
            if input == "file.txt"
    ));

    let genpass = Opts {
        cmd: Subcommand::GenPass(GenPassOpts {
            length: 16,
            uppercase: true,
            lowercase: true,
            number: false,
            symbol: false,
        }),
    };
    assert!(matches!(
        genpass.cmd,
        Subcommand::GenPass(GenPassOpts { length: 16, number: false, .. })
    ));
}

#[test]
fn test_format_names() {
    assert_eq!(TextSignFormat::Blake3.name(), "blake3");
    assert_eq!(TextSignFormat::Ed25519.name(), "ed25519");
    assert_eq!(Base64Format::Standard.name(), "standard");
    assert_eq!(Base64Format::UrlSafe.name(), "urlsafe");
}
