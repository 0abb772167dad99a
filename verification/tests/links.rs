use screenshotapp::links::{
    data_url, editor_url, rename_url, rename_url_with_notes, shortcut_config_url,
    signed_decimal_string,
};

#[test]
fn plain_paths_stand_for_themselves() {
    assert_eq!(rename_url("abcXYZ019-._~"), "/rename.html?path=abcXYZ019-._~");
    assert_eq!(rename_url(""), "/rename.html?path=");
}

#[test]
fn other_bytes_are_percent_encoded() {
    assert_eq!(
        rename_url("/Users/me/Desktop/my shot.jpg"),
        "/rename.html?path=%2FUsers%2Fme%2FDesktop%2Fmy%20shot.jpg"
    );
    assert_eq!(rename_url("a+b&c=d?e#f%"), "/rename.html?path=a%2Bb%26c%3Dd%3Fe%23f%25");
    assert_eq!(rename_url("é"), "/rename.html?path=%C3%A9");
    assert_eq!(rename_url("\u{2318}\n"), "/rename.html?path=%E2%8C%98%0A");
    assert_eq!(rename_url("\u{1f600}"), "/rename.html?path=%F0%9F%98%80");
    assert_eq!(rename_url("\u{0}\u{7f}"), "/rename.html?path=%00%7F");
}

#[test]
fn the_rename_page_with_notes() {
    assert_eq!(
        rename_url_with_notes("/a b.jpg", "see: this", ""),
        "/rename.html?path=%2Fa%20b.jpg&note=see%3A%20this&burnedNote="
    );
    assert_eq!(
        rename_url_with_notes("p", "n", "b&b"),
        "/rename.html?path=p&note=n&burnedNote=b%26b"
    );
}

#[test]
fn the_shortcut_page() {
    assert_eq!(
        shortcut_config_url("area", "Cmd+Shift+4", "Cmd+Shift+3"),
        "/shortcut-config.html?target=area&current=Cmd%2BShift%2B4&other=Cmd%2BShift%2B3"
    );
}

#[test]
fn the_editor_page() {
    assert_eq!(
        editor_url("/a.png", 40, "note", "burned note"),
        "/editor.html?path=%2Fa.png&padding=40&note=note&burnedNote=burned%20note"
    );
    assert_eq!(editor_url("", 0, "", ""), "/editor.html?path=&padding=0&note=&burnedNote=");
    assert_eq!(editor_url("x", -3, "", ""), "/editor.html?path=x&padding=-3&note=&burnedNote=");
}

#[test]
fn whole_numbers_in_decimal() {
    assert_eq!(signed_decimal_string(0), "0");
    assert_eq!(signed_decimal_string(17), "17");
    assert_eq!(signed_decimal_string(-1), "-1");
    assert_eq!(signed_decimal_string(i32::MAX), "2147483647");
    assert_eq!(signed_decimal_string(i32::MIN), "-2147483648");
}

#[test]
fn images_as_data_addresses() {
    assert_eq!(data_url("/a/b.png", b""), "data:image/png;base64,");
    assert_eq!(data_url("/a/b.png", b"f"), "data:image/png;base64,Zg==");
    assert_eq!(data_url("/a/b.PNG", b"fo"), "data:image/png;base64,Zm8=");
    assert_eq!(data_url("/a/b.jpg", b"foo"), "data:image/jpeg;base64,Zm9v");
    assert_eq!(data_url("/a/b.JPEG", b"foob"), "data:image/jpeg;base64,Zm9vYg==");
    assert_eq!(data_url("b.jpeg", b"fooba"), "data:image/jpeg;base64,Zm9vYmE=");
    assert_eq!(data_url("b", b"foobar"), "data:image/png;base64,Zm9vYmFy");
    assert_eq!(data_url("b", &[0xfb, 0xff, 0xbf]), "data:image/png;base64,+/+/");
    assert_eq!(data_url("b", &[0, 0x10, 0x83]), "data:image/png;base64,ABCD");
    assert_eq!(data_url("b", &[255]), "data:image/png;base64,/w==");
}
