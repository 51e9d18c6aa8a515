use img_processor::{
    destination_path, join_destination, name_and_extension, place, required_text, CompressError,
    NamePart, PathPart,
};

fn text(part: &str) -> PathPart {
    PathPart::Text(part.to_string())
}

#[test]
fn photo_bmp_as_webp_goes_to_photo_webp() {
    assert_eq!(destination_path("photo.bmp", "out", "webp"), Ok("out/photo.webp".to_string()));
}

#[test]
fn the_directories_of_the_source_are_dropped() {
    assert_eq!(
        destination_path("/home/user/pictures/photo.bmp", "/tmp/out", "png"),
        Ok("/tmp/out/photo.png".to_string())
    );
    assert_eq!(
        destination_path("relative/dir/photo.bmp", "out", "jpg"),
        Ok("out/photo.jpg".to_string())
    );
}

#[test]
fn jpeg_is_written_as_jpg() {
    assert_eq!(destination_path("a/cat.png", "out", "jpeg"), Ok("out/cat.jpg".to_string()));
    assert_eq!(destination_path("a/cat.png", "out", "jpg"), Ok("out/cat.jpg".to_string()));
}

#[test]
fn only_the_last_extension_is_replaced() {
    assert_eq!(
        destination_path("backup/archive.tar.gz", "out", "png"),
        Ok("out/archive.tar.png".to_string())
    );
}

#[test]
fn a_name_without_extension_is_its_own_stem() {
    assert_eq!(destination_path("in/README", "out", "webp"), Ok("out/README.webp".to_string()));
}

#[test]
fn a_leading_dot_starts_no_extension() {
    assert_eq!(destination_path("in/.hidden", "out", "png"), Ok("out/.hidden.png".to_string()));
}

#[test]
fn a_trailing_slash_is_passed_over() {
    assert_eq!(destination_path("in/shots.d/", "out", "png"), Ok("out/shots.png".to_string()));
}

#[test]
fn the_join_is_a_forward_slash_and_nothing_is_tidied() {
    assert_eq!(destination_path("a.bmp", "out/", "png"), Ok("out//a.png".to_string()));
    assert_eq!(destination_path("a.bmp", "", "png"), Ok("/a.png".to_string()));
}

#[test]
fn same_stems_share_one_destination() {
    assert_eq!(
        destination_path("in/photo.bmp", "out", "webp"),
        destination_path("other/photo.png", "out", "webp")
    );
}

#[test]
fn a_path_without_final_segment_has_no_file_name() {
    for path in ["", "/", "..", "a/..", "."] {
        assert_eq!(
            destination_path(path, "out", "png"),
            Err(CompressError::MissingFileName),
            "path {path:?}"
        );
    }
}

#[test]
fn an_unsupported_tag_is_refused_with_the_tag() {
    assert_eq!(
        destination_path("in/photo.bmp", "out", "gif"),
        Err(CompressError::UnsupportedFormat { tag: "gif".to_string() })
    );
}

#[test]
fn a_missing_file_name_is_found_before_an_unsupported_tag() {
    assert_eq!(destination_path("/", "out", "gif"), Err(CompressError::MissingFileName));
}

#[test]
fn the_same_input_gives_the_same_destination() {
    assert_eq!(
        destination_path("in/photo.bmp", "out", "webp"),
        destination_path("in/photo.bmp", "out", "webp")
    );
}

#[test]
fn join_destination_puts_slash_and_dot() {
    assert_eq!(join_destination("out", "photo", "webp"), "out/photo.webp");
    assert_eq!(join_destination("", "", ""), "/.");
    assert_eq!(join_destination("图", "片", "png"), "图/片.png");
}

#[test]
fn required_text_hands_the_text_on() {
    assert_eq!(required_text(text("photo.bmp"), NamePart::FileName), Ok("photo.bmp".to_string()));
    assert_eq!(required_text(text("photo"), NamePart::Stem), Ok("photo".to_string()));
}

#[test]
fn required_text_names_what_is_missing() {
    assert_eq!(
        required_text(PathPart::Absent, NamePart::FileName),
        Err(CompressError::MissingFileName)
    );
    assert_eq!(required_text(PathPart::Absent, NamePart::Stem), Err(CompressError::MissingStem));
}

#[test]
fn required_text_names_what_is_not_text() {
    assert_eq!(
        required_text(PathPart::NotText, NamePart::FileName),
        Err(CompressError::InvalidEncoding { part: NamePart::FileName })
    );
    assert_eq!(
        required_text(PathPart::NotText, NamePart::Stem),
        Err(CompressError::InvalidEncoding { part: NamePart::Stem })
    );
}

#[test]
fn name_and_extension_pairs_the_name_with_the_extension() {
    assert_eq!(
        name_and_extension(text("photo.bmp"), "jpeg"),
        Ok(("photo.bmp".to_string(), "jpg"))
    );
    assert_eq!(
        name_and_extension(text("photo.bmp"), "webp"),
        Ok(("photo.bmp".to_string(), "webp"))
    );
}

#[test]
fn name_and_extension_looks_at_the_name_first() {
    assert_eq!(name_and_extension(PathPart::Absent, "gif"), Err(CompressError::MissingFileName));
    assert_eq!(
        name_and_extension(PathPart::NotText, "gif"),
        Err(CompressError::InvalidEncoding { part: NamePart::FileName })
    );
    assert_eq!(name_and_extension(PathPart::Absent, "png"), Err(CompressError::MissingFileName));
    assert_eq!(
        name_and_extension(text("photo.bmp"), "gif"),
        Err(CompressError::UnsupportedFormat { tag: "gif".to_string() })
    );
}

#[test]
fn place_joins_the_stem_into_the_directory() {
    assert_eq!(place(text("photo"), "out", "webp"), Ok("out/photo.webp".to_string()));
}

#[test]
fn place_fails_without_a_stem() {
    assert_eq!(place(PathPart::Absent, "out", "webp"), Err(CompressError::MissingStem));
    assert_eq!(
        place(PathPart::NotText, "out", "webp"),
        Err(CompressError::InvalidEncoding { part: NamePart::Stem })
    );
}
