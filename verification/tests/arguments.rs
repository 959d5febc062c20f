use geo_bound_voronoi::arguments::CommandLineArguments;

#[test]
fn test_default_output_path_valid() {
    let args = CommandLineArguments::new(String::from("/test/path/point_set.json"), None);
    assert_eq!(
        args.default_ouptut_path(),
        format!("{}/{}", "/test/path", "geo_bound_voronoi.json")
    );
}

#[test]
fn test_default_output_path_invalid() {
    let args = CommandLineArguments::new(String::from(""), None);
    assert_eq!(args.default_ouptut_path(), String::from("geo_bound_voronoi.json"));
}

#[test]
fn test_output_path_set() {
    let output_path = String::from("test/output/path/file.json");
    let args = CommandLineArguments::new(
        String::from("/test/path/point_set.json"),
        Some(output_path.clone()),
    );
    assert_eq!(args.output_path(), output_path);
}

#[test]
fn test_output_path_unset_valid() {
    let args = CommandLineArguments::new(String::from("/test/path/point_set.json"), None);
    assert_eq!(
        args.output_path(),
        format!("{}/{}", "/test/path", "geo_bound_voronoi.json")
    );
}

#[test]
fn test_output_path_unset_invalid() {
    let args = CommandLineArguments::new(String::from(""), None);
    assert_eq!(args.output_path(), String::from("geo_bound_voronoi.json"));
}

#[test]
fn test_output_path_rooted_input() {
    let args = CommandLineArguments::new(String::from("/point_set.json"), None);
    assert_eq!(args.output_path(), String::from("/geo_bound_voronoi.json"));
}

#[test]
fn test_point_set_file_accessor() {
    let args = CommandLineArguments::new(String::from("data/points.json"), None);
    assert_eq!(args.point_set_file(), "data/points.json");
    assert_eq!(args.output_path(), String::from("data/geo_bound_voronoi.json"));
}

#[test]
fn test_default_output_path_trailing_separator() {
    // A trailing separator is ignored, as taking the path's parent does.
    let args = CommandLineArguments::new(String::from("x/"), None);
    assert_eq!(args.default_ouptut_path(), String::from("geo_bound_voronoi.json"));
    let args = CommandLineArguments::new(String::from("/test/path/"), None);
    assert_eq!(
        args.default_ouptut_path(),
        format!("{}/{}", "/test", "geo_bound_voronoi.json")
    );
}

#[test]
fn test_default_output_path_separators_only() {
    let args = CommandLineArguments::new(String::from("/"), None);
    assert_eq!(args.default_ouptut_path(), String::from("geo_bound_voronoi.json"));
    let args = CommandLineArguments::new(String::from("///"), None);
    assert_eq!(args.default_ouptut_path(), String::from("geo_bound_voronoi.json"));
}
