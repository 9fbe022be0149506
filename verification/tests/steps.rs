use chakkar::{crush, crush_png, Action, Config, CrushError, Event, FileError, IoStep, PngColorType};
use std::collections::BTreeMap;

fn config(outfile: Option<&str>, inplace: bool) -> Config {
    Config::from_matches(String::from("in.png"), outfile.map(String::from), inplace, 0, 8)
}

fn rgba_stream(width: u32, height: u32, data: &[u8]) -> Vec<u8> {
    let mut out: Vec<u8> = Vec::new();
    {
        let mut encoder = png::Encoder::new(&mut out, width, height);
        encoder.set_color(png::ColorType::Rgba);
        let mut writer = encoder.write_header().unwrap();
        writer.write_image_data(data).unwrap();
    }
    out
}

fn gray_stream() -> Vec<u8> {
    let mut out: Vec<u8> = Vec::new();
    {
        let mut encoder = png::Encoder::new(&mut out, 1, 1);
        encoder.set_color(png::ColorType::Grayscale);
        let mut writer = encoder.write_header().unwrap();
        writer.write_image_data(&[7]).unwrap();
    }
    out
}

fn pixels_of(stream: &[u8]) -> Vec<u8> {
    let mut reader = png::Decoder::new(stream).read_info().unwrap();
    let mut data: Vec<u8> = vec![0; reader.output_buffer_size()];
    reader.next_frame(&mut data).unwrap();
    data
}

/// Runs the steps against files held in memory. An operation named in
/// `broken`, as in `remove in.png`, fails.
fn run(config: &Config, disk: &mut BTreeMap<String, Vec<u8>>, broken: &[&str]) -> Result<(), CrushError> {
    let fails = |what: String| broken.contains(&what.as_str());
    let mut event = Event::Started;
    let mut steps: u32 = 0;
    loop {
        steps += 1;
        assert!(steps <= 5);
        event = match crush(config, event) {
            Action::ReadInput { path } => Event::InputRead(match disk.get(&path) {
                Some(_) if fails(format!("open {}", path)) => {
                    Err(FileError::Open(format!("cannot open {}", path)))
                }
                Some(_) if fails(format!("read {}", path)) => {
                    Err(FileError::Data(format!("cannot read {}", path)))
                }
                Some(bytes) => Ok(bytes.clone()),
                None => Err(FileError::Open(format!("cannot open {}", path))),
            }),
            Action::WriteOutput { path, data } => Event::OutputWritten(
                if fails(format!("create {}", path)) {
                    Err(FileError::Open(format!("cannot create {}", path)))
                } else if fails(format!("write {}", path)) {
                    disk.insert(path.clone(), Vec::new());
                    Err(FileError::Data(format!("cannot write {}", path)))
                } else {
                    disk.insert(path, data);
                    Ok(())
                },
            ),
            Action::RemoveInput { path } => Event::InputRemoved(
                if fails(format!("remove {}", path)) || disk.remove(&path).is_none() {
                    Err(format!("cannot remove {}", path))
                } else {
                    Ok(())
                },
            ),
            Action::RenameOutput { from, to } => Event::OutputRenamed(
                if fails(format!("rename {}", from)) {
                    Err(format!("cannot rename {}", from))
                } else {
                    match disk.remove(&from) {
                        Some(bytes) => {
                            disk.insert(to, bytes);
                            Ok(())
                        }
                        None => Err(format!("cannot rename {}", from)),
                    }
                },
            ),
            Action::Finish { result } => return result,
        };
    }
}

#[test]
fn a_run_starts_by_reading_the_input() {
    let action = crush(&config(None, false), Event::Started);
    assert_eq!(action, Action::ReadInput { path: String::from("in.png") });
}

#[test]
fn a_crushed_input_is_written_to_the_output_path() {
    let stream = rgba_stream(1, 1, &[10, 20, 30, 255]);
    let expected = crush_png(&stream).unwrap();
    let action = crush(&config(Some("out.png"), false), Event::InputRead(Ok(stream.clone())));
    assert_eq!(action, Action::WriteOutput { path: String::from("out.png"), data: expected.clone() });
    let default = crush(&config(None, true), Event::InputRead(Ok(stream)));
    assert_eq!(default, Action::WriteOutput { path: String::from("output.png"), data: expected });
}

#[test]
fn a_rejected_input_ends_the_run_without_a_write() {
    let action = crush(&config(None, false), Event::InputRead(Ok(gray_stream())));
    assert_eq!(
        action,
        Action::Finish {
            result: Err(CrushError::UnsupportedFormat { found: PngColorType::Grayscale, depth: 8 })
        }
    );
    let garbage = crush(&config(None, true), Event::InputRead(Ok(vec![1, 2, 3])));
    assert!(matches!(garbage, Action::Finish { result: Err(CrushError::Decode { .. }) }));
}

#[test]
fn sixteen_bit_rgba_ends_the_run_without_a_write() {
    let mut stream: Vec<u8> = Vec::new();
    {
        let mut encoder = png::Encoder::new(&mut stream, 2, 1);
        encoder.set_color(png::ColorType::Rgba);
        encoder.set_depth(png::BitDepth::Sixteen);
        let mut writer = encoder.write_header().unwrap();
        writer.write_image_data(&[0u8; 16]).unwrap();
    }
    let action = crush(&config(None, false), Event::InputRead(Ok(stream)));
    assert_eq!(
        action,
        Action::Finish {
            result: Err(CrushError::UnsupportedFormat { found: PngColorType::Rgba, depth: 16 })
        }
    );
}

#[test]
fn a_written_output_ends_the_run_unless_in_place() {
    let done = crush(&config(None, false), Event::OutputWritten(Ok(())));
    assert_eq!(done, Action::Finish { result: Ok(()) });
    let next = crush(&config(None, true), Event::OutputWritten(Ok(())));
    assert_eq!(next, Action::RemoveInput { path: String::from("in.png") });
}

#[test]
fn in_place_the_output_moves_to_the_input_path() {
    let moved = crush(&config(Some("tmp.png"), true), Event::InputRemoved(Ok(())));
    assert_eq!(
        moved,
        Action::RenameOutput { from: String::from("tmp.png"), to: String::from("in.png") }
    );
    let default = crush(&config(None, true), Event::InputRemoved(Ok(())));
    assert_eq!(
        default,
        Action::RenameOutput { from: String::from("output.png"), to: String::from("in.png") }
    );
    let done = crush(&config(None, true), Event::OutputRenamed(Ok(())));
    assert_eq!(done, Action::Finish { result: Ok(()) });
}

#[test]
fn a_failed_operation_ends_the_run() {
    let cases = [
        (Event::InputRead(Err(FileError::Open(String::from("denied")))), IoStep::OpenInput),
        (Event::OutputWritten(Err(FileError::Open(String::from("denied")))), IoStep::CreateOutput),
        (Event::InputRemoved(Err(String::from("denied"))), IoStep::RemoveInput),
        (Event::OutputRenamed(Err(String::from("denied"))), IoStep::RenameOutput),
    ];
    for (event, step) in cases {
        let action = crush(&config(None, true), event);
        assert_eq!(
            action,
            Action::Finish { result: Err(CrushError::Io { step, detail: String::from("denied") }) }
        );
    }
}

#[test]
fn an_input_that_cannot_be_read_through_fails_to_decode() {
    let action = crush(
        &config(None, true),
        Event::InputRead(Err(FileError::Data(String::from("unexpected end of file")))),
    );
    assert_eq!(
        action,
        Action::Finish {
            result: Err(CrushError::Decode { detail: String::from("unexpected end of file") })
        }
    );
}

#[test]
fn an_output_that_cannot_be_written_through_fails_to_encode() {
    let action = crush(
        &config(None, true),
        Event::OutputWritten(Err(FileError::Data(String::from("no space left on device")))),
    );
    assert_eq!(
        action,
        Action::Finish {
            result: Err(CrushError::Encode { detail: String::from("no space left on device") })
        }
    );
}

#[test]
fn verbosity_and_chunk_size_change_nothing() {
    let quiet = Config::from_matches(String::from("in.png"), None, true, 0, 8);
    let loud = Config::from_matches(String::from("in.png"), None, true, 3, 4096);
    let stream = rgba_stream(1, 1, &[200, 100, 50, 100]);
    assert_eq!(
        crush(&quiet, Event::InputRead(Ok(stream.clone()))),
        crush(&loud, Event::InputRead(Ok(stream)))
    );
    assert_eq!(crush(&quiet, Event::Started), crush(&loud, Event::Started));
    assert_eq!(
        crush(&quiet, Event::OutputWritten(Ok(()))),
        crush(&loud, Event::OutputWritten(Ok(())))
    );
}

#[test]
fn a_plain_run_writes_the_output_and_keeps_the_input() {
    let stream = rgba_stream(1, 2, &[10, 20, 30, 255, 255, 255, 255, 128]);
    let mut disk: BTreeMap<String, Vec<u8>> = BTreeMap::new();
    disk.insert(String::from("in.png"), stream.clone());
    assert_eq!(run(&config(Some("out.png"), false), &mut disk, &[]), Ok(()));
    assert_eq!(disk.len(), 2);
    assert_eq!(disk["in.png"], stream);
    assert_eq!(pixels_of(&disk["out.png"]), vec![30, 20, 10, 255, 128, 128, 128, 128]);
}

#[test]
fn an_in_place_run_replaces_the_input() {
    let stream = rgba_stream(1, 2, &[10, 20, 30, 255, 255, 255, 255, 128]);
    let mut disk: BTreeMap<String, Vec<u8>> = BTreeMap::new();
    disk.insert(String::from("in.png"), stream);
    assert_eq!(run(&config(None, true), &mut disk, &[]), Ok(()));
    assert_eq!(disk.len(), 1);
    assert!(!disk.contains_key("output.png"));
    assert_eq!(pixels_of(&disk["in.png"]), vec![30, 20, 10, 255, 128, 128, 128, 128]);
}

#[test]
fn a_missing_input_is_an_io_error() {
    let mut disk: BTreeMap<String, Vec<u8>> = BTreeMap::new();
    let r = run(&config(None, false), &mut disk, &[]);
    assert_eq!(
        r,
        Err(CrushError::Io { step: IoStep::OpenInput, detail: String::from("cannot open in.png") })
    );
    assert!(disk.is_empty());
}

#[test]
fn a_rejected_input_leaves_no_output_file() {
    let mut disk: BTreeMap<String, Vec<u8>> = BTreeMap::new();
    disk.insert(String::from("in.png"), gray_stream());
    let r = run(&config(None, true), &mut disk, &[]);
    assert_eq!(r, Err(CrushError::UnsupportedFormat { found: PngColorType::Grayscale, depth: 8 }));
    assert_eq!(disk.len(), 1);
    assert_eq!(disk["in.png"], gray_stream());
}

#[test]
fn an_output_that_cannot_be_created_keeps_the_input() {
    let stream = rgba_stream(1, 1, &[1, 2, 3, 4]);
    let mut disk: BTreeMap<String, Vec<u8>> = BTreeMap::new();
    disk.insert(String::from("in.png"), stream.clone());
    let r = run(&config(None, true), &mut disk, &["create output.png"]);
    assert_eq!(
        r,
        Err(CrushError::Io {
            step: IoStep::CreateOutput,
            detail: String::from("cannot create output.png"),
        })
    );
    assert_eq!(disk.len(), 1);
    assert_eq!(disk["in.png"], stream);
}

#[test]
fn a_failed_write_keeps_the_input() {
    let stream = rgba_stream(1, 1, &[1, 2, 3, 4]);
    let mut disk: BTreeMap<String, Vec<u8>> = BTreeMap::new();
    disk.insert(String::from("in.png"), stream.clone());
    let r = run(&config(None, true), &mut disk, &["write output.png"]);
    assert_eq!(r, Err(CrushError::Encode { detail: String::from("cannot write output.png") }));
    assert_eq!(disk["in.png"], stream);
}

#[test]
fn a_failed_read_is_a_failure_to_decode() {
    let stream = rgba_stream(1, 1, &[1, 2, 3, 4]);
    let mut disk: BTreeMap<String, Vec<u8>> = BTreeMap::new();
    disk.insert(String::from("in.png"), stream.clone());
    let r = run(&config(None, false), &mut disk, &["read in.png"]);
    assert_eq!(r, Err(CrushError::Decode { detail: String::from("cannot read in.png") }));
    assert_eq!(disk.len(), 1);
    assert_eq!(disk["in.png"], stream);
}

#[test]
fn a_failed_removal_keeps_both_files() {
    let stream = rgba_stream(1, 1, &[1, 2, 3, 4]);
    let mut disk: BTreeMap<String, Vec<u8>> = BTreeMap::new();
    disk.insert(String::from("in.png"), stream.clone());
    let r = run(&config(None, true), &mut disk, &["remove in.png"]);
    assert_eq!(
        r,
        Err(CrushError::Io {
            step: IoStep::RemoveInput,
            detail: String::from("cannot remove in.png"),
        })
    );
    assert_eq!(disk.len(), 2);
    assert_eq!(disk["in.png"], stream);
    assert_eq!(pixels_of(&disk["output.png"]), vec![0, 0, 0, 4]);
}

#[test]
fn a_failed_rename_is_not_undone() {
    let stream = rgba_stream(1, 1, &[1, 2, 3, 4]);
    let mut disk: BTreeMap<String, Vec<u8>> = BTreeMap::new();
    disk.insert(String::from("in.png"), stream);
    let r = run(&config(None, true), &mut disk, &["rename output.png"]);
    assert_eq!(
        r,
        Err(CrushError::Io {
            step: IoStep::RenameOutput,
            detail: String::from("cannot rename output.png"),
        })
    );
    assert!(!disk.contains_key("in.png"));
    assert_eq!(pixels_of(&disk["output.png"]), vec![0, 0, 0, 4]);
}

#[test]
fn output_on_the_input_path_fails_at_the_rename() {
    let stream = rgba_stream(1, 1, &[1, 2, 3, 4]);
    let mut disk: BTreeMap<String, Vec<u8>> = BTreeMap::new();
    disk.insert(String::from("in.png"), stream);
    let r = run(&config(Some("in.png"), true), &mut disk, &[]);
    assert_eq!(
        r,
        Err(CrushError::Io {
            step: IoStep::RenameOutput,
            detail: String::from("cannot rename in.png"),
        })
    );
    assert!(disk.is_empty());
}
