use game_core::shader::fix_shader_source;

#[test]
fn shader_preamble_is_dropped() {
    let src = "#version 100 // editor only\n////\nvoid main() {}\n";
    assert_eq!(fix_shader_source(src), "////\nvoid main() {}\n");
}

#[test]
fn shader_without_separator_is_kept() {
    let src = "void main() {}\n///\n";
    assert_eq!(fix_shader_source(src), src);
    assert_eq!(fix_shader_source(""), "");
}

#[test]
fn shader_first_separator_wins() {
    let src = "a////\nb////\nc";
    assert_eq!(fix_shader_source(src), "////\nb////\nc");
    assert_eq!(fix_shader_source("é////\nx"), "////\nx");
}
