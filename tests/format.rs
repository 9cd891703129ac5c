use nickel_js::format::{input_format, InputFormat};

#[test]
fn structured_suffixes_select_their_format() {
    assert_eq!(input_format("/etc/conf/data.json"), InputFormat::Json);
    assert_eq!(input_format("a.yaml"), InputFormat::Yaml);
    assert_eq!(input_format("a.yml"), InputFormat::Yaml);
    assert_eq!(input_format("dir/b.toml"), InputFormat::Toml);
}

#[test]
fn other_paths_are_nickel() {
    assert_eq!(input_format("main.ncl"), InputFormat::Nickel);
    assert_eq!(input_format("json"), InputFormat::Nickel);
    assert_eq!(input_format("data.json.ncl"), InputFormat::Nickel);
    assert_eq!(input_format(""), InputFormat::Nickel);
    assert_eq!(input_format("x.JSON"), InputFormat::Nickel);
}

#[test]
fn bare_suffix_is_recognized() {
    assert_eq!(input_format(".json"), InputFormat::Json);
}
