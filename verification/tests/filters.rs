use termview::filter::{get_filter, ResampleFilterKind};

#[test]
fn the_five_recognized_names_resolve() {
    assert_eq!(get_filter("nearest".to_string()), Some(ResampleFilterKind::Nearest));
    assert_eq!(get_filter("triangle".to_string()), Some(ResampleFilterKind::Triangle));
    assert_eq!(get_filter("catmullrom".to_string()), Some(ResampleFilterKind::CatmullRom));
    assert_eq!(get_filter("gaussian".to_string()), Some(ResampleFilterKind::Gaussian));
    assert_eq!(get_filter("lanczos3".to_string()), Some(ResampleFilterKind::Lanczos3));
}

#[test]
fn an_unknown_name_is_an_error_not_a_fallback() {
    assert_eq!(get_filter("blur".to_string()), None);
    assert_eq!(get_filter("".to_string()), None);
    assert_eq!(get_filter("Nearest".to_string()), None);
    assert_eq!(get_filter("gaussian ".to_string()), None);
}

#[test]
fn the_default_kernel_is_gaussian() {
    assert_eq!(ResampleFilterKind::default(), ResampleFilterKind::Gaussian);
}
