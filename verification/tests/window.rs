use pixi_gui::window::{
    create_default_window, create_window, create_window_labelled, create_workspace_window,
    WINDOW_HEIGHT, WINDOW_MIN_HEIGHT, WINDOW_MIN_WIDTH, WINDOW_WIDTH,
};

fn assert_random_uuid(id: &str) {
    let chars: Vec<char> = id.chars().collect();
    assert_eq!(chars.len(), 36);
    for (i, c) in chars.iter().enumerate() {
        if i == 8 || i == 13 || i == 18 || i == 23 {
            assert_eq!(*c, '-');
        } else {
            assert!(matches!(*c, '0'..='9' | 'a'..='f'), "{c:?} at {i}");
        }
    }
    assert_eq!(chars[14], '4');
    assert!(matches!(chars[19], '8' | '9' | 'a' | 'b'));
}

#[test]
fn window_sizes_are_the_documented_ones() {
    assert_eq!(WINDOW_WIDTH, 800);
    assert_eq!(WINDOW_HEIGHT, 600);
    assert_eq!(WINDOW_MIN_WIDTH, 500);
    assert_eq!(WINDOW_MIN_HEIGHT, 400);
}

#[test]
fn labelled_window_has_every_setting() {
    let c = create_window_labelled("/settings", "abc");
    assert_eq!(c.label, "pixi-gui-window-abc");
    assert_eq!(c.url, "settings");
    assert_eq!(c.title, "Pixi GUI");
    assert_eq!(c.width, 800);
    assert_eq!(c.height, 600);
    assert_eq!(c.min_width, 500);
    assert_eq!(c.min_height, 400);
}

#[test]
fn leading_slashes_are_trimmed_and_no_others() {
    assert_eq!(create_window_labelled("/", "x").url, "");
    assert_eq!(create_window_labelled("", "x").url, "");
    assert_eq!(create_window_labelled("///", "x").url, "");
    assert_eq!(create_window_labelled("//a/b/", "x").url, "a/b/");
    assert_eq!(create_window_labelled("a//b", "x").url, "a//b");
    assert_eq!(create_window_labelled("/é/ü", "x").url, "é/ü");
}

#[test]
fn empty_id_leaves_the_prefix() {
    assert_eq!(create_window_labelled("/", "").label, "pixi-gui-window-");
}

#[test]
fn fresh_label_is_prefix_and_uuid() {
    let c = create_window("/about");
    assert_eq!(c.url, "about");
    assert_eq!(c.title, "Pixi GUI");
    let id = c.label.strip_prefix("pixi-gui-window-").expect("prefix");
    assert_random_uuid(id);
}

#[test]
fn fresh_labels_differ() {
    let a = create_window("/");
    let b = create_window("/");
    assert_ne!(a.label, b.label);
    assert_eq!(a.url, b.url);
}

#[test]
fn default_window_opens_on_the_root() {
    let c = create_default_window();
    assert_eq!(c.url, "");
    assert_eq!(c.title, "Pixi GUI");
    assert_eq!((c.width, c.height, c.min_width, c.min_height), (800, 600, 500, 400));
    assert_random_uuid(c.label.strip_prefix("pixi-gui-window-").expect("prefix"));
}

#[test]
fn workspace_window_encodes_the_path() {
    let c = create_workspace_window("/home/me/my project");
    assert_eq!(c.url, "workspace/%2Fhome%2Fme%2Fmy%20project/");
    assert_random_uuid(c.label.strip_prefix("pixi-gui-window-").expect("prefix"));
}

#[test]
fn workspace_window_keeps_letters_and_digits_only() {
    assert_eq!(create_workspace_window("abcXYZ019").url, "workspace/abcXYZ019/");
    assert_eq!(create_workspace_window("a-b_c.d~e").url, "workspace/a%2Db%5Fc%2Ed%7Ee/");
    assert_eq!(create_workspace_window("C:\\Users\\me").url, "workspace/C%3A%5CUsers%5Cme/");
    assert_eq!(create_workspace_window("100%").url, "workspace/100%25/");
    assert_eq!(create_workspace_window("").url, "workspace//");
}

#[test]
fn workspace_window_encodes_each_byte_of_a_character() {
    assert_eq!(create_workspace_window("é").url, "workspace/%C3%A9/");
    assert_eq!(create_workspace_window("日本").url, "workspace/%E6%97%A5%E6%9C%AC/");
    assert_eq!(create_workspace_window("\u{1f600}").url, "workspace/%F0%9F%98%80/");
    assert_eq!(create_workspace_window("\n\t\u{7f}").url, "workspace/%0A%09%7F/");
}

#[test]
fn encoded_path_cannot_split_the_route() {
    for path in ["/a/b/../c", "a?b#c", "%2F", "x y/z\\w", "/tmp/é/日本"] {
        let url = create_workspace_window(path).url;
        let inner = url
            .strip_prefix("workspace/")
            .and_then(|rest| rest.strip_suffix('/'))
            .expect("route around the path");
        assert!(
            inner.chars().all(|c| c.is_ascii_alphanumeric() || c == '%'),
            "{inner:?}"
        );
    }
}
