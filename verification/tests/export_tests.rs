use magviz::export::classify_selection;
use magviz::export::dialog_title;
use magviz::export::raster_filter;
use magviz::export::vector_filter;
use magviz::export::extension_bytes;
use magviz::export::ExportError;
use magviz::export::ExportFormat;

fn bytes(s: &str) -> Vec<u8> {
    s.as_bytes().to_vec()
}

#[test]
fn cancelled_dialog_is_benign() {
    assert_eq!(classify_selection(None), Err(ExportError::NoFileSelected));
}

#[test]
fn svg_extension_picks_the_vector_backend() {
    let p = bytes("/tmp/out.svg");
    assert_eq!(classify_selection(Some(&p)), Ok(ExportFormat::Svg));
}

#[test]
fn raster_extensions_pick_the_raster_backend() {
    for name in ["/tmp/out.png", "/tmp/out.jpg", "shot.bmp"] {
        let p = bytes(name);
        assert_eq!(classify_selection(Some(&p)), Ok(ExportFormat::Raster));
    }
}

#[test]
fn extension_matching_ignores_ascii_case() {
    let p = bytes("/tmp/OUT.PNG");
    assert_eq!(classify_selection(Some(&p)), Ok(ExportFormat::Raster));
    let p = bytes("/tmp/out.Svg");
    assert_eq!(classify_selection(Some(&p)), Ok(ExportFormat::Svg));
}

#[test]
fn unknown_extension_is_rejected() {
    let p = bytes("/tmp/out.tiff");
    assert_eq!(
        classify_selection(Some(&p)),
        Err(ExportError::ExtensionNotRecognized)
    );
    let p = bytes("/tmp/out.txt");
    assert_eq!(
        classify_selection(Some(&p)),
        Err(ExportError::ExtensionNotRecognized)
    );
}

#[test]
fn missing_extension_is_rejected() {
    for name in ["/tmp/out", "/tmp.d/out", ".bashrc", "/tmp/", ""] {
        let p = bytes(name);
        assert_eq!(
            classify_selection(Some(&p)),
            Err(ExportError::NoExtensionProvided),
            "path {:?}",
            name
        );
    }
}

#[test]
fn non_unicode_extension_is_rejected() {
    let mut p = bytes("/tmp/out.");
    p.push(0xff);
    p.push(0xfe);
    assert_eq!(
        classify_selection(Some(&p)),
        Err(ExportError::ExtensionInvalidUnicode)
    );
}

#[test]
fn extension_is_taken_from_the_final_component() {
    // A dot in a directory name is not an extension.
    assert_eq!(extension_bytes(&bytes("/tmp.d/out")), None);
    // The portion after the final dot wins.
    assert_eq!(extension_bytes(&bytes("a.tar.gz")), Some(bytes("gz")));
    // A file name that is only a leading dot has no extension.
    assert_eq!(extension_bytes(&bytes("/home/.profile")), None);
    // A trailing dot yields an empty extension.
    assert_eq!(extension_bytes(&bytes("note.")), Some(Vec::new()));
}

#[test]
fn messages_match_the_user_facing_text() {
    assert_eq!(ExportError::NoFileSelected.message(), "no file was selected");
    assert_eq!(
        ExportError::NoExtensionProvided.message(),
        "selected file has no extension. a suitable file type can not be selected"
    );
    assert_eq!(
        ExportError::ExtensionInvalidUnicode.message(),
        "selected file has an extension that is not valid unicode"
    );
    assert_eq!(
        ExportError::ExtensionNotRecognized.message(),
        "selected file has an unrecognized extensions"
    );
}

#[test]
fn dialog_offers_the_two_filter_groups() {
    let (vector_name, vector_exts) = vector_filter();
    assert_eq!(vector_name, "Vector Graphics");
    assert_eq!(vector_exts, ["svg"]);
    let (raster_name, raster_exts) = raster_filter();
    assert_eq!(raster_name, "Bitmap Raster");
    assert_eq!(raster_exts, ["png", "jpg", "bmp"]);
    assert_eq!(dialog_title(), "Export current view");
}
