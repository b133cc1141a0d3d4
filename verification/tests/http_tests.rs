use rcli::errors::TextError;
use rcli::http_serve::render_index_html;

#[test]
fn index_lists_files_with_suffixes_and_directories() {
    let entries = vec![
        ("a.txt".to_string(), false),
        ("sub".to_string(), true),
        (".hidden.txt".to_string(), false),
        ("noext".to_string(), false),
        ("index.html".to_string(), false),
    ];
    let html = render_index_html("root", &entries, true);
    let expected = "<!DOCTYPE html>\n<html>\n<head>\n<title>root</title>\n</head>\n<body>\n<h1>root File List</h1>\n<li><a href=\"./a.txt\">a.txt</a></li>\n<li><a href=\"./sub/\">sub/</a></li>\n</ul>\n</body>\n</html>";
    assert_eq!(html, expected);
}

#[test]
fn nested_index_links_back_to_its_parent() {
    let entries = vec![("b.rs".to_string(), false)];
    let html = render_index_html("root/sub", &entries, false);
    let expected = "<!DOCTYPE html>\n<html>\n<head>\n<title>root/sub</title>\n</head>\n<body>\n<h1>root/sub File List</h1>\n<li><a href=\"../\">../</a></li>\n<li><a href=\"./b.rs\">b.rs</a></li>\n</ul>\n</body>\n</html>";
    assert_eq!(html, expected);
}

#[test]
fn error_messages_are_not_empty() {
    for e in [
        TextError::IoError,
        TextError::InvalidKey,
        TextError::InvalidPublicKey,
        TextError::InvalidSignature,
        TextError::InvalidEncoding,
        TextError::InvalidRecord,
        TextError::EncryptionFailed,
        TextError::DecryptionFailed,
        TextError::SigningFailed,
    ] {
        assert!(!e.message().is_empty());
    }
}
