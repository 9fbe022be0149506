use chakkar::Config;

#[test]
fn config_holds_what_was_matched() {
    let config = Config::from_matches(String::from("in.png"), Some(String::from("out.png")), true, 2, 8);
    assert_eq!(config.infile, "in.png");
    assert_eq!(config.outfile, Some(String::from("out.png")));
    assert!(config.inplace);
    assert_eq!(config.verbose, 2);
    assert_eq!(config.chunk_size, 8);
}

#[test]
fn output_path_is_the_one_given() {
    let config = Config::from_matches(String::from("in.png"), Some(String::from("out.png")), false, 0, 8);
    assert_eq!(config.output_path(), "out.png");
}

#[test]
fn output_path_defaults() {
    let config = Config::from_matches(String::from("in.png"), None, false, 0, 8);
    assert_eq!(config.output_path(), "output.png");
    let inplace = Config::from_matches(String::from("in.png"), None, true, 0, 8);
    assert_eq!(inplace.output_path(), "output.png");
}
