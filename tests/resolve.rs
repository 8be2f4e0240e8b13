use sengaka::{
    check_cardinality, check_hints, DirEntry, Format, IOIteratorError, Input, Layout, Output,
    WorkItem, IO,
};

fn files(input_is_dir: bool, output_is_dir: bool, names: &[&str]) -> Layout {
    Layout {
        input_is_dir,
        output_is_dir,
        entries: names
            .iter()
            .map(|n| DirEntry { path: n.to_string(), is_dir: false })
            .collect(),
    }
}

fn path_in(p: &str) -> Input {
    Input::FileOrDir(p.to_string())
}

fn path_out(p: &str) -> Output {
    Output::FileOrDir(p.to_string())
}

fn items(io: &IO) -> Vec<&WorkItem> {
    let mut it = io.iter();
    let mut v = Vec::new();
    while let Some(item) = it.next() {
        v.push(item);
    }
    assert!(it.next().is_none());
    v
}

#[test]
fn stream_input_without_format_is_unknown_input_format() {
    let r = IO::new(Input::Stdin, Output::Stdout, None, Some(Format::Png), &files(false, false, &[]));
    assert_eq!(r.err(), Some(IOIteratorError::UnknownInputFormat));
    let r = IO::new(Input::Stdin, path_out("out.png"), None, None, &files(false, false, &[]));
    assert_eq!(r.err(), Some(IOIteratorError::UnknownInputFormat));
    let r = IO::new(Input::Stdin, path_out("out"), None, None, &files(false, true, &[]));
    assert_eq!(r.err(), Some(IOIteratorError::UnknownInputFormat));
    assert_eq!(
        check_hints(&Input::Stdin, &Output::Stdout, None, Some(Format::Png)),
        Err(IOIteratorError::UnknownInputFormat)
    );
}

#[test]
fn stream_input_with_format_resolves() {
    let io = IO::new(
        Input::Stdin,
        Output::Stdout,
        Some(Format::Jpeg),
        Some(Format::Png),
        &files(false, false, &[]),
    )
    .unwrap();
    let v = items(&io);
    assert_eq!(v.len(), 1);
    assert_eq!(v[0].input, None);
    assert_eq!(v[0].output, None);
    assert_eq!(v[0].input_format, Format::Jpeg);
    assert_eq!(v[0].output_format, Format::Png);
    assert_eq!(v[0].file_name, None);
}

#[test]
fn stream_output_without_format_is_unknown_output_format() {
    let r = IO::new(path_in("a.png"), Output::Stdout, None, None, &files(false, false, &[]));
    assert_eq!(r.err(), Some(IOIteratorError::UnknownOutputFormat));
}

#[test]
fn directory_to_single_file_is_many_to_one() {
    let layout = files(true, false, &["in/a.png", "in/b.jpg"]);
    let r = IO::new(path_in("in"), path_out("out.png"), None, None, &layout);
    assert_eq!(r.err(), Some(IOIteratorError::MultiToSingle));
    let r = IO::new(path_in("in"), path_out("out.png"), Some(Format::Gif), Some(Format::Bmp), &layout);
    assert_eq!(r.err(), Some(IOIteratorError::MultiToSingle));
    let r = IO::new(path_in("in"), Output::Stdout, None, Some(Format::Png), &layout);
    assert_eq!(r.err(), Some(IOIteratorError::MultiToSingle));
    assert_eq!(
        check_cardinality(&path_in("in"), &path_out("out.png"), true, false),
        Err(IOIteratorError::MultiToSingle)
    );
}

#[test]
fn stream_to_directory_has_no_file_name() {
    let r = IO::new(Input::Stdin, path_out("out"), Some(Format::Png), None, &files(false, true, &[]));
    assert_eq!(r.err(), Some(IOIteratorError::UnknownFileName));
    assert_eq!(
        check_cardinality(&Input::Stdin, &path_out("out"), false, true),
        Err(IOIteratorError::UnknownFileName)
    );
}

#[test]
fn directory_to_directory_skips_unrelated_files() {
    let mut layout = files(true, true, &["src/a.png", "src/b.jpg", "src/c.txt"]);
    layout.entries.push(DirEntry { path: "src/sub.png".to_string(), is_dir: true });
    let io = IO::new(path_in("src"), path_out("dst"), None, None, &layout).unwrap();
    assert_eq!(io.len(), 2);
    let v = items(&io);
    assert_eq!(v.len(), 2);
    assert_eq!(v[0].input.as_deref(), Some("src/a.png"));
    assert_eq!(v[0].output.as_deref(), Some("dst/a.png"));
    assert_eq!(v[0].input_format, Format::Png);
    assert_eq!(v[0].output_format, Format::Png);
    assert_eq!(v[0].file_name.as_deref(), Some("a.png"));
    assert_eq!(v[1].input.as_deref(), Some("src/b.jpg"));
    assert_eq!(v[1].output.as_deref(), Some("dst/b.jpg"));
    assert_eq!(v[1].input_format, Format::Jpeg);
    assert_eq!(v[1].output_format, Format::Jpeg);
    assert_eq!(v[1].file_name.as_deref(), Some("b.jpg"));
}

#[test]
fn directory_output_format_hint_applies_to_every_item() {
    let layout = files(true, true, &["src/a.png", "src/b.JPG"]);
    let io = IO::new(path_in("src"), path_out("dst/"), None, Some(Format::Bmp), &layout).unwrap();
    let v = items(&io);
    assert_eq!(v.len(), 2);
    assert_eq!(v[0].output_format, Format::Bmp);
    assert_eq!(v[1].output_format, Format::Bmp);
    assert_eq!(v[1].input_format, Format::Jpeg);
    assert_eq!(v[1].output.as_deref(), Some("dst/b.JPG"));
}

#[test]
fn empty_directory_gives_no_work() {
    let io = IO::new(path_in("src"), path_out("dst"), None, None, &files(true, true, &["src/x.txt"])).unwrap();
    assert_eq!(io.len(), 0);
    assert!(io.iter().next().is_none());
}

#[test]
fn file_to_file_takes_each_side_from_its_extension() {
    let io = IO::new(path_in("a/in.PNG"), path_out("b/out.jpg"), None, None, &files(false, false, &[])).unwrap();
    let v = items(&io);
    assert_eq!(v.len(), 1);
    assert_eq!(v[0].input.as_deref(), Some("a/in.PNG"));
    assert_eq!(v[0].output.as_deref(), Some("b/out.jpg"));
    assert_eq!(v[0].input_format, Format::Png);
    assert_eq!(v[0].output_format, Format::Jpeg);
    assert_eq!(v[0].file_name.as_deref(), Some("in.PNG"));
}

#[test]
fn given_formats_override_extensions() {
    let io = IO::new(
        path_in("in.dat"),
        path_out("out.dat"),
        Some(Format::Tga),
        Some(Format::Ico),
        &files(false, false, &[]),
    )
    .unwrap();
    let v = items(&io);
    assert_eq!(v[0].input_format, Format::Tga);
    assert_eq!(v[0].output_format, Format::Ico);
}

#[test]
fn file_without_known_extension_is_unknown_input_format() {
    let r = IO::new(path_in("in.txt"), path_out("out.png"), None, None, &files(false, false, &[]));
    assert_eq!(r.err(), Some(IOIteratorError::UnknownInputFormat));
}

#[test]
fn output_without_known_extension_is_unknown_output_format() {
    let r = IO::new(path_in("in.png"), path_out("out.txt"), None, None, &files(false, false, &[]));
    assert_eq!(r.err(), Some(IOIteratorError::UnknownOutputFormat));
    let r = IO::new(Input::Stdin, path_out("out"), Some(Format::Png), None, &files(false, false, &[]));
    assert_eq!(r.err(), Some(IOIteratorError::UnknownOutputFormat));
}

#[test]
fn file_to_directory_keeps_the_name() {
    let io = IO::new(path_in("pics/cat.gif"), path_out("out"), None, None, &files(false, true, &[])).unwrap();
    let v = items(&io);
    assert_eq!(v.len(), 1);
    assert_eq!(v[0].output.as_deref(), Some("out/cat.gif"));
    assert_eq!(v[0].output_format, Format::Gif);
}

#[test]
fn stream_to_file_uses_the_file_extension() {
    let io = IO::new(Input::Stdin, path_out("o.webp"), Some(Format::Png), None, &files(false, false, &[])).unwrap();
    let v = items(&io);
    assert_eq!(v.len(), 1);
    assert_eq!(v[0].input, None);
    assert_eq!(v[0].output.as_deref(), Some("o.webp"));
    assert_eq!(v[0].output_format, Format::Webp);
    assert_eq!(v[0].file_name, None);
}

#[test]
fn directory_output_format_follows_each_file_not_the_input_hint() {
    let layout = files(true, true, &["in/a.jpg", "in/b.png"]);
    let io = IO::new(path_in("in"), path_out("out"), Some(Format::Png), None, &layout).unwrap();
    let v = items(&io);
    assert_eq!(v.len(), 2);
    assert_eq!(v[0].input_format, Format::Png);
    assert_eq!(v[0].output_format, Format::Jpeg);
    assert_eq!(v[0].output.as_deref(), Some("out/a.jpg"));
    assert_eq!(v[1].input_format, Format::Png);
    assert_eq!(v[1].output_format, Format::Png);
}

#[test]
fn file_into_directory_needs_a_known_output_format() {
    let r = IO::new(path_in("in.dat"), path_out("out"), Some(Format::Png), None, &files(false, true, &[]));
    assert_eq!(r.err(), Some(IOIteratorError::UnknownOutputFormat));
    let io = IO::new(path_in("in.dat"), path_out("out"), Some(Format::Png), Some(Format::Bmp), &files(false, true, &[]))
        .unwrap();
    let v = items(&io);
    assert_eq!(v[0].output.as_deref(), Some("out/in.dat"));
    assert_eq!(v[0].output_format, Format::Bmp);
}
