use popwin::actions::{
    copy_keys, cut, key_combo, paste, search_url, translate, translation_text, Key, KeyStroke,
    TranslationReply,
};
use popwin::text::has_text;

fn combo(key: Key) -> Vec<KeyStroke> {
    vec![
        KeyStroke { key: Key::Control, release: false },
        KeyStroke { key, release: false },
        KeyStroke { key, release: true },
        KeyStroke { key: Key::Control, release: true },
    ]
}

#[test]
fn key_combinations() {
    assert_eq!(paste(), combo(Key::V));
    assert_eq!(cut(), combo(Key::X));
    assert_eq!(copy_keys(), combo(Key::C));
    assert_eq!(key_combo(Key::V), combo(Key::V));
}

#[test]
fn search_url_encodes_the_query() {
    assert_eq!(search_url("rust"), "https://www.perplexity.ai/search?q=rust");
    assert_eq!(search_url("a b&c"), "https://www.perplexity.ai/search?q=a%20b%26c");
    assert_eq!(search_url("é-_.~"), "https://www.perplexity.ai/search?q=%C3%A9-_.~");
    assert_eq!(search_url(""), "https://www.perplexity.ai/search?q=");
}

#[test]
fn sample_translation_of_known_words() {
    assert_eq!(translate("hello"), "こんにちは (挨拶)");
    assert_eq!(translate("  HeLLo \n"), "こんにちは (挨拶)");
    assert_eq!(translate("Simulation"), "シミュレーション (模擬実験)");
    assert_eq!(translate("POPWIN"), "ポップウィン (このアプリ)");
    assert_eq!(translate("rust"), "Rust (プログラミング言語)");
}

#[test]
fn sample_translation_template() {
    assert_eq!(translate("  good day "), "翻訳(PoC): good day の日本語訳サンプル");
    assert_eq!(translate(""), "翻訳(PoC):  の日本語訳サンプル");
}

#[test]
fn translation_reply_texts() {
    assert_eq!(translation_text(&TranslationReply::Unreachable), "通信エラー");
    assert_eq!(translation_text(&TranslationReply::Rejected), "翻訳エラー");
    assert_eq!(translation_text(&TranslationReply::Sentences(vec![])), "翻訳エラー");
    assert_eq!(translation_text(&TranslationReply::Sentences(vec![None, Some(String::new())])), "翻訳エラー");
    let parts = vec![Some("こんにちは。".to_string()), None, Some("元気？".to_string())];
    assert_eq!(translation_text(&TranslationReply::Sentences(parts)), "こんにちは。元気？");
}

#[test]
fn white_space_only_text_has_no_content() {
    assert!(has_text(" x "));
    assert!(!has_text(" \t\r\n"));
    assert!(!has_text(""));
    assert!(!has_text("\u{2003}\u{85}"));
}
