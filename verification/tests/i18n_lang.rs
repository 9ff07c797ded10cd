use fixrs::{detect_lang, match_locale_str, msg_for_lang, Lang};

#[test]
fn chinese_locales_of_any_form() {
    assert_eq!(match_locale_str("zh_CN.UTF-8"), Some(Lang::Zh));
    assert_eq!(match_locale_str("zh-Hant"), Some(Lang::Zh));
    assert_eq!(match_locale_str("ZH_tw"), Some(Lang::Zh));
    assert_eq!(match_locale_str("en_ZH"), Some(Lang::Zh));
}

#[test]
fn posix_locales_name_no_language() {
    assert_eq!(match_locale_str("C"), None);
    assert_eq!(match_locale_str("c.UTF-8"), None);
    assert_eq!(match_locale_str("POSIX"), None);
    assert_eq!(match_locale_str(""), None);
    assert_eq!(match_locale_str("   "), None);
}

#[test]
fn codes_and_names_in_any_case() {
    assert_eq!(match_locale_str("en_US.UTF-8"), Some(Lang::En));
    assert_eq!(match_locale_str("  fr_FR "), Some(Lang::Fr));
    assert_eq!(match_locale_str("German"), Some(Lang::De));
    assert_eq!(match_locale_str("pt-BR"), Some(Lang::Pt));
    assert_eq!(match_locale_str("NB_no"), Some(Lang::No));
    assert_eq!(match_locale_str("iw_IL"), Some(Lang::He));
    assert_eq!(match_locale_str("ja_JP@euro"), Some(Lang::Ja));
    assert_eq!(match_locale_str("xx_YY"), None);
}

#[test]
fn detection_takes_the_first_locale_that_names_a_language() {
    let values = vec!["C:POSIX".to_string(), "xx:de_DE".to_string(), "fr_FR".to_string()];
    assert_eq!(detect_lang(&values), Lang::De);
    assert_eq!(detect_lang(&vec!["C".to_string()]), Lang::En);
    assert_eq!(detect_lang(&vec![]), Lang::En);
}

#[test]
fn english_texts_and_messages() {
    let m = msg_for_lang(Lang::En);
    assert_eq!(m.failed_init_runtime, "Failed to initialize compio runtime");
    assert_eq!(m.found_exceeding_limit(3), "Found 3 file(s) with qualified paths exceeding limit");
    assert_eq!(
        m.can_be_simplified(12),
        "\n12 file(s) can be simplified, run without `--dry-run` to apply changes"
    );
    assert_eq!(m.error_processing_file("a.rs", "boom"), "[warn] Error processing a.rs: boom, skipping");
}

#[test]
fn chinese_messages() {
    let m = msg_for_lang(Lang::Zh);
    assert_eq!(m.found_exceeding_limit(0), "发现 0 个包含超长绝对路径的文件");
    assert_eq!(m.found_exceeding_limit(1050), "发现 1050 个包含超长绝对路径的文件");
}

#[test]
fn locale_case_and_surrounding_space_do_not_matter() {
    for l in ["fr_FR.UTF-8", "FR_fr.utf-8", "  Fr_FR\t", "\nfR\n"] {
        assert_eq!(match_locale_str(l), Some(Lang::Fr));
    }
    assert_eq!(match_locale_str(" de_DE "), match_locale_str("DE_de"));
}
