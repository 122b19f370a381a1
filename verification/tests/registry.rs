use image_converter::format::SupportedFormat;

#[test]
fn parse_is_case_insensitive() {
    let expected = Ok(SupportedFormat::Png);
    assert_eq!(SupportedFormat::from_extension("PNG"), expected);
    assert_eq!(SupportedFormat::from_extension("png"), expected);
    assert_eq!(SupportedFormat::from_extension("Png"), expected);
}

#[test]
fn parse_rejects_gif_and_empty() {
    assert_eq!(
        SupportedFormat::from_extension("gif"),
        Err(String::from("Unsupported format: gif"))
    );
    assert_eq!(
        SupportedFormat::from_extension(""),
        Err(String::from("Unsupported format: "))
    );
}

#[test]
fn parse_recognises_every_name() {
    assert_eq!(SupportedFormat::from_extension("jpg"), Ok(SupportedFormat::Jpeg));
    assert_eq!(SupportedFormat::from_extension("jpeg"), Ok(SupportedFormat::Jpeg));
    assert_eq!(SupportedFormat::from_extension("png"), Ok(SupportedFormat::Png));
    assert_eq!(SupportedFormat::from_extension("webp"), Ok(SupportedFormat::WebP));
    assert_eq!(SupportedFormat::from_extension("avif"), Ok(SupportedFormat::Avif));
}

#[test]
fn parse_ignores_case_in_every_name() {
    assert_eq!(SupportedFormat::from_extension("JPG"), Ok(SupportedFormat::Jpeg));
    assert_eq!(SupportedFormat::from_extension("JpEg"), Ok(SupportedFormat::Jpeg));
    assert_eq!(SupportedFormat::from_extension("WebP"), Ok(SupportedFormat::WebP));
    assert_eq!(SupportedFormat::from_extension("AVIF"), Ok(SupportedFormat::Avif));
}

#[test]
fn parse_error_quotes_extension_as_given() {
    assert_eq!(
        SupportedFormat::from_extension("TIFF"),
        Err(String::from("Unsupported format: TIFF"))
    );
}

#[test]
fn parse_rejects_near_misses() {
    for ext in ["pn", "pngg", ".png", "png ", " png", "jpe", "jpegg", "web", "avi", "p\u{f1}g"] {
        assert_eq!(
            SupportedFormat::from_extension(ext),
            Err(format!("Unsupported format: {}", ext)),
            "{:?}",
            ext
        );
    }
}

#[test]
fn parse_folds_ascii_letters_only() {
    // A capital I with a dot above lowercases to two characters, and the
    // Kelvin sign to a letter that no name holds.
    assert!(SupportedFormat::from_extension("AV\u{130}F").is_err());
    assert!(SupportedFormat::from_extension("\u{212a}").is_err());
    // Fullwidth letters are no ASCII letters.
    assert!(SupportedFormat::from_extension("\u{ff30}\u{ff2e}\u{ff27}").is_err());
}

#[test]
fn parse_agrees_with_lowercasing_first() {
    for ext in ["PNG", "Jpg", "jPEG", "WEBP", "aVif", "GIF", "", "Bmp", "AV\u{130}F"] {
        let folded = ext.to_lowercase();
        assert_eq!(
            SupportedFormat::from_extension(ext).ok(),
            SupportedFormat::from_extension(&folded).ok(),
            "{:?}",
            ext
        );
    }
}

#[test]
fn extension_is_canonical() {
    assert_eq!(SupportedFormat::Jpeg.extension(), "jpg");
    assert_eq!(SupportedFormat::Png.extension(), "png");
    assert_eq!(SupportedFormat::WebP.extension(), "webp");
    assert_eq!(SupportedFormat::Avif.extension(), "avif");
}

#[test]
fn extension_parses_back_to_its_format() {
    for format in [
        SupportedFormat::Jpeg,
        SupportedFormat::Png,
        SupportedFormat::WebP,
        SupportedFormat::Avif,
    ] {
        assert_eq!(SupportedFormat::from_extension(format.extension()), Ok(format));
    }
}

#[test]
fn extensions_are_distinct() {
    let all = [
        SupportedFormat::Jpeg,
        SupportedFormat::Png,
        SupportedFormat::WebP,
        SupportedFormat::Avif,
    ];
    for a in all {
        for b in all {
            assert_eq!(a.extension() == b.extension(), a == b);
        }
    }
}

#[test]
fn no_character_beyond_ascii_lowercases_into_a_name() {
    // Folding ASCII capitals is all that ignoring case takes: beyond ASCII
    // only the Kelvin sign lowercases to ASCII letters, and no name holds
    // a `k`.
    let letters = "jpgenwbavif";
    let mut code = 0x80u32;
    while code <= 0x10ffff {
        if let Some(c) = char::from_u32(code) {
            let lowered: String = c.to_lowercase().collect();
            let within = lowered.chars().all(|l| letters.contains(l));
            assert!(!within, "U+{:04X} lowercases to {:?}", code, lowered);
        }
        code += 1;
    }
}

#[test]
fn parse_agrees_with_lowercasing_on_every_single_replacement() {
    let names = ["jpg", "jpeg", "png", "webp", "avif"];
    for replacement in ['K', '\u{212a}', '\u{130}', 'I', 'i', '\u{131}', '\u{3a3}', 'P', '\u{ff30}'] {
        for name in names {
            for position in 0..name.len() {
                let mut candidate: Vec<char> = name.chars().collect();
                candidate[position] = replacement;
                let candidate: String = candidate.into_iter().collect();
                let expected = names.contains(&candidate.to_lowercase().as_str());
                assert_eq!(
                    SupportedFormat::from_extension(&candidate).is_ok(),
                    expected,
                    "{:?}",
                    candidate
                );
            }
        }
    }
}
