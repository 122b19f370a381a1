use image::{DynamicImage, ImageFormat};
use image_converter::batch::{
    plan_entry, plan_requests, BatchAction, BatchEvent, BatchPhase, BatchRun, ConversionRequest,
    DirEntry,
};
use image_converter::converter::{ImageConverter, RasterImage};
use image_converter::format::SupportedFormat;

fn file(name: &str) -> DirEntry {
    DirEntry { name: String::from(name), is_file: true }
}

fn directory(name: &str) -> DirEntry {
    DirEntry { name: String::from(name), is_file: false }
}

fn request(input: &str, output: &str, target_format: SupportedFormat) -> ConversionRequest {
    ConversionRequest { input: String::from(input), output: String::from(output), target_format }
}

fn picture(format: SupportedFormat) -> Vec<u8> {
    let raster = RasterImage { image: DynamicImage::new_rgb8(6, 4), width: 6, height: 4 };
    ImageConverter::new(85).save_image(&raster, format).unwrap().bytes
}

/// What a sweep over a directory held in memory leaves behind.
struct Sweep {
    tally: Option<usize>,
    aborted: bool,
    created_output_dir_before_listing: bool,
    written: Vec<(String, Vec<u8>)>,
    successes: Vec<String>,
    failures: Vec<(String, String)>,
    attempts: usize,
}

/// Drives a run over files held in memory, as a program would over a
/// directory on disk.
fn sweep(files: &[(&str, bool, Vec<u8>)], target: SupportedFormat, listable: bool) -> Sweep {
    let converter = ImageConverter::new(85);
    let mut result = Sweep {
        tally: None,
        aborted: false,
        created_output_dir_before_listing: false,
        written: Vec::new(),
        successes: Vec::new(),
        failures: Vec::new(),
        attempts: 0,
    };
    let mut output_dir_exists = false;
    let mut run = BatchRun::new(target);
    for _ in 0..files.len() + 4 {
        let event = match run.action() {
            BatchAction::EnsureOutputDir => {
                output_dir_exists = true;
                BatchEvent::OutputDirReady
            }
            BatchAction::ListInputDir => {
                result.created_output_dir_before_listing = output_dir_exists;
                if listable {
                    BatchEvent::Listed(
                        files
                            .iter()
                            .map(|(name, is_file, _)| DirEntry {
                                name: String::from(*name),
                                is_file: *is_file,
                            })
                            .collect(),
                    )
                } else {
                    BatchEvent::ListingFailed
                }
            }
            BatchAction::Convert(request) => {
                assert!(output_dir_exists);
                assert_eq!(request.target_format, target);
                result.attempts += 1;
                let bytes = &files.iter().find(|(name, _, _)| *name == request.input).unwrap().2;
                match converter.convert(&request.input, bytes, request.target_format) {
                    Ok(conversion) => {
                        result.written.push((request.output.clone(), conversion.bytes));
                        result.successes.push(request.input.clone());
                        BatchEvent::Converted
                    }
                    Err(error) => {
                        result.failures.push((request.input.clone(), error.message()));
                        BatchEvent::Failed
                    }
                }
            }
            BatchAction::Finish { converted } => {
                result.tally = Some(converted);
                return result;
            }
            BatchAction::Abort => {
                result.aborted = true;
                return result;
            }
        };
        run = run.step(event);
    }
    panic!("the run did not end");
}

#[test]
fn batch_mixed_directory() {
    let files = [
        ("one.png", true, picture(SupportedFormat::Png)),
        ("notes.txt", true, b"plain text".to_vec()),
        ("two.jpg", true, picture(SupportedFormat::Jpeg)),
        ("broken.png", true, b"no image in here".to_vec()),
    ];
    let result = sweep(&files, SupportedFormat::WebP, true);
    assert_eq!(result.tally, Some(2));
    assert_eq!(result.attempts, 3);
    assert_eq!(result.successes, vec!["one.png", "two.jpg"]);
    assert_eq!(result.failures.len(), 1);
    assert_eq!(result.failures[0].0, "broken.png");
    assert!(!result.failures[0].1.is_empty());
    let names: Vec<&str> = result.written.iter().map(|(name, _)| name.as_str()).collect();
    assert_eq!(names, vec!["one.webp", "two.webp"]);
    for (_, bytes) in &result.written {
        assert_eq!(image::guess_format(bytes).unwrap(), ImageFormat::WebP);
    }
}

#[test]
fn batch_three_valid_one_unsupported_one_corrupt() {
    let files = [
        ("a.png", true, picture(SupportedFormat::Png)),
        ("b.jpeg", true, picture(SupportedFormat::Jpeg)),
        ("c.webp", true, picture(SupportedFormat::WebP)),
        ("d.gif", true, b"GIF89a".to_vec()),
        ("e.jpg", true, b"corrupt".to_vec()),
    ];
    let result = sweep(&files, SupportedFormat::Png, true);
    assert_eq!(result.tally, Some(3));
    assert_eq!(result.tally, Some(result.successes.len()));
    assert_eq!(result.attempts, 4);
    assert_eq!(result.failures.len(), 1);
    assert_eq!(result.failures[0].0, "e.jpg");
}

#[test]
fn batch_creates_output_dir_first() {
    let run = BatchRun::new(SupportedFormat::Png);
    assert_eq!(run.phase(), BatchPhase::Initializing);
    assert_eq!(run.action(), BatchAction::EnsureOutputDir);
    let files = [("a.png", true, picture(SupportedFormat::Png))];
    let result = sweep(&files, SupportedFormat::Jpeg, true);
    assert!(result.created_output_dir_before_listing);
    assert_eq!(result.tally, Some(1));
    let names: Vec<&str> = result.written.iter().map(|(name, _)| name.as_str()).collect();
    assert_eq!(names, vec!["a.jpg"]);
}

#[test]
fn batch_output_holds_exactly_the_converted_files() {
    let files = [
        ("keep.png", true, picture(SupportedFormat::Png)),
        ("bad.webp", true, vec![0, 1, 2, 3]),
        ("sub.png", false, Vec::new()),
        ("readme", true, b"text".to_vec()),
    ];
    let result = sweep(&files, SupportedFormat::Jpeg, true);
    let names: Vec<&str> = result.written.iter().map(|(name, _)| name.as_str()).collect();
    assert_eq!(names, vec!["keep.jpg"]);
    assert_eq!(result.tally, Some(1));
}

#[test]
fn batch_empty_directory() {
    let result = sweep(&[], SupportedFormat::Png, true);
    assert_eq!(result.tally, Some(0));
    assert!(result.failures.is_empty());
    assert!(!result.aborted);
    assert_eq!(result.attempts, 0);
}

#[test]
fn batch_all_failed_counts_zero_too() {
    let files = [("x.png", true, b"junk".to_vec()), ("y.jpg", true, b"junk".to_vec())];
    let result = sweep(&files, SupportedFormat::WebP, true);
    assert_eq!(result.tally, Some(0));
    assert_eq!(result.failures.len(), 2);
    assert!(result.written.is_empty());
}

#[test]
fn batch_aborts_when_listing_fails() {
    let result = sweep(&[], SupportedFormat::Png, false);
    assert!(result.aborted);
    assert_eq!(result.tally, None);
    assert_eq!(result.attempts, 0);
}

#[test]
fn batch_aborts_when_output_dir_fails() {
    let run = BatchRun::new(SupportedFormat::Png).step(BatchEvent::OutputDirFailed);
    assert_eq!(run.phase(), BatchPhase::Aborted);
    assert_eq!(run.action(), BatchAction::Abort);
    let run = run.step(BatchEvent::OutputDirReady).step(BatchEvent::Listed(vec![file("a.png")]));
    assert_eq!(run.phase(), BatchPhase::Aborted);
    assert_eq!(run.planned(), 0);
}

#[test]
fn run_walks_through_its_phases() {
    let run = BatchRun::new(SupportedFormat::Avif);
    assert_eq!(run.target_format(), SupportedFormat::Avif);
    assert_eq!((run.planned(), run.attempted(), run.converted()), (0, 0, 0));
    let run = run.step(BatchEvent::OutputDirReady);
    assert_eq!(run.phase(), BatchPhase::Scanning);
    assert_eq!(run.action(), BatchAction::ListInputDir);
    let run = run.step(BatchEvent::Listed(vec![file("a.png"), file("b.txt"), file("c.JPG")]));
    assert_eq!(run.phase(), BatchPhase::Converting);
    assert_eq!(run.planned(), 2);
    assert_eq!(
        run.action(),
        BatchAction::Convert(request("a.png", "a.avif", SupportedFormat::Avif))
    );
    let run = run.step(BatchEvent::Failed);
    assert_eq!(run.phase(), BatchPhase::Converting);
    assert_eq!((run.attempted(), run.converted()), (1, 0));
    assert_eq!(
        run.action(),
        BatchAction::Convert(request("c.JPG", "c.avif", SupportedFormat::Avif))
    );
    let run = run.step(BatchEvent::Converted);
    assert_eq!(run.phase(), BatchPhase::Completed);
    assert_eq!((run.attempted(), run.converted()), (2, 1));
    assert_eq!(run.action(), BatchAction::Finish { converted: 1 });
}

#[test]
fn run_ignores_events_out_of_turn() {
    let run = BatchRun::new(SupportedFormat::Png);
    let run = run.step(BatchEvent::Converted);
    assert_eq!(run.phase(), BatchPhase::Initializing);
    let run = run.step(BatchEvent::Listed(vec![file("a.png")]));
    assert_eq!(run.phase(), BatchPhase::Initializing);
    assert_eq!(run.planned(), 0);
    let run = run.step(BatchEvent::OutputDirReady).step(BatchEvent::OutputDirFailed);
    assert_eq!(run.phase(), BatchPhase::Scanning);
    let run = run.step(BatchEvent::Failed);
    assert_eq!((run.phase(), run.attempted()), (BatchPhase::Scanning, 0));
    let run = run.step(BatchEvent::Listed(vec![file("a.png")]));
    let run = run.step(BatchEvent::ListingFailed).step(BatchEvent::OutputDirReady);
    assert_eq!(run.phase(), BatchPhase::Converting);
    let run = run.step(BatchEvent::Converted);
    assert_eq!(run.action(), BatchAction::Finish { converted: 1 });
    let run = run.step(BatchEvent::Converted).step(BatchEvent::Failed);
    assert_eq!(run.action(), BatchAction::Finish { converted: 1 });
    assert_eq!(run.attempted(), 1);
}

#[test]
fn tally_counts_successes() {
    let entries: Vec<DirEntry> = (0..6).map(|i| file(&format!("{}.png", i))).collect();
    let outcomes = [true, false, true, true, false, true];
    let mut run = BatchRun::new(SupportedFormat::Jpeg)
        .step(BatchEvent::OutputDirReady)
        .step(BatchEvent::Listed(entries));
    for (i, ok) in outcomes.iter().enumerate() {
        assert_eq!(run.phase(), BatchPhase::Converting);
        assert_eq!(
            run.action(),
            BatchAction::Convert(request(
                &format!("{}.png", i),
                &format!("{}.jpg", i),
                SupportedFormat::Jpeg
            ))
        );
        run = run.step(if *ok { BatchEvent::Converted } else { BatchEvent::Failed });
    }
    assert_eq!(run.action(), BatchAction::Finish { converted: 4 });
}

#[test]
fn plan_skips_what_is_not_an_image_file() {
    let target = SupportedFormat::WebP;
    assert_eq!(plan_entry(&file("a.png"), target), Some(request("a.png", "a.webp", target)));
    assert_eq!(plan_entry(&file("a.JPEG"), target), Some(request("a.JPEG", "a.webp", target)));
    assert_eq!(plan_entry(&file("a.webp"), target), Some(request("a.webp", "a.webp", target)));
    assert_eq!(plan_entry(&file("a.tar.avif"), target), Some(request("a.tar.avif", "a.tar.webp", target)));
    assert_eq!(plan_entry(&file("a.gif"), target), None);
    assert_eq!(plan_entry(&file("png"), target), None);
    assert_eq!(plan_entry(&file(".png"), target), None);
    assert_eq!(plan_entry(&file("a."), target), None);
    assert_eq!(plan_entry(&directory("album.png"), target), None);
    assert_eq!(plan_entry(&directory("album"), target), None);
}

#[test]
fn plan_keeps_the_order_of_the_listing() {
    let entries = vec![
        file("z.png"),
        directory("nested"),
        file("a.jpg"),
        file("notes.md"),
        file("m.avif"),
    ];
    let target = SupportedFormat::Png;
    assert_eq!(
        plan_requests(&entries, target),
        vec![
            request("z.png", "z.png", target),
            request("a.jpg", "a.png", target),
            request("m.avif", "m.png", target),
        ]
    );
    assert_eq!(plan_requests(&Vec::new(), target), Vec::new());
}

#[test]
fn plan_of_directory_without_images_is_empty() {
    let entries = vec![file("a.txt"), directory("b.png"), file("c")];
    let run = BatchRun::new(SupportedFormat::Png)
        .step(BatchEvent::OutputDirReady)
        .step(BatchEvent::Listed(entries));
    assert_eq!(run.phase(), BatchPhase::Completed);
    assert_eq!(run.action(), BatchAction::Finish { converted: 0 });
}
