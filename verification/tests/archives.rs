use iris::archive::{corridor_scripts_plan, python_runtime_tar};
use iris::download::{python_download_step, RetryStep};
use std::io::Write;

fn scripts_zip() -> Vec<u8> {
    let mut w = zip::ZipWriter::new(std::io::Cursor::new(Vec::new()));
    let opts = zip::write::SimpleFileOptions::default()
        .compression_method(zip::CompressionMethod::Stored);
    w.start_file("CorridorKey-main/README.md", opts).unwrap();
    w.write_all(b"readme").unwrap();
    w.add_directory("CorridorKey-main/CorridorKeyModule/", opts).unwrap();
    w.add_directory("CorridorKey-main/CorridorKeyModule/core/", opts).unwrap();
    w.start_file("CorridorKey-main/CorridorKeyModule/core/model_transformer.py", opts).unwrap();
    w.write_all(b"import torch\n").unwrap();
    w.start_file("CorridorKey-main/CorridorKeyModule/inference_engine.py", opts).unwrap();
    w.write_all(b"engine").unwrap();
    w.finish().unwrap().into_inner()
}

#[test]
fn scripts_archive_plan_keeps_module_entries() {
    let plan = corridor_scripts_plan(&scripts_zip()).unwrap();
    assert_eq!(
        plan,
        vec![
            ("core/".to_string(), true, Vec::new()),
            ("core/model_transformer.py".to_string(), false, b"import torch\n".to_vec()),
            ("inference_engine.py".to_string(), false, b"engine".to_vec()),
        ]
    );
}

#[test]
fn unreadable_scripts_archive() {
    let zip_error = zip::ZipArchive::new(std::io::Cursor::new(&b"not a zip archive"[..]))
        .err()
        .unwrap()
        .to_string();
    assert_eq!(corridor_scripts_plan(b"not a zip archive"), Err(zip_error));
}

#[test]
fn python_runtime_gzip() {
    let mut enc = flate2::write::GzEncoder::new(Vec::new(), flate2::Compression::default());
    enc.write_all(b"tar archive bytes").unwrap();
    let gz = enc.finish().unwrap();
    assert_eq!(python_runtime_tar(&gz), Ok(b"tar archive bytes".to_vec()));
    let mut sink = Vec::new();
    let gz_error = std::io::Read::read_to_end(
        &mut flate2::read::GzDecoder::new(&b"plain bytes"[..]),
        &mut sink,
    )
    .unwrap_err()
    .to_string();
    assert_eq!(python_runtime_tar(b"plain bytes"), Err(format!("Extraction failed: {}", gz_error)));
}

#[test]
fn python_download_retries_then_gives_up() {
    assert!(matches!(python_download_step(0), RetryStep::Attempt { report: None }));
    match python_download_step(1) {
        RetryStep::Attempt { report } => {
            assert_eq!(report.as_deref(), Some("Retrying Python download (attempt 2)..."))
        }
        RetryStep::GiveUp { .. } => panic!("gave up too early"),
    }
    match python_download_step(2) {
        RetryStep::Attempt { report } => {
            assert_eq!(report.as_deref(), Some("Retrying Python download (attempt 3)..."))
        }
        RetryStep::GiveUp { .. } => panic!("gave up too early"),
    }
    match python_download_step(3) {
        RetryStep::GiveUp { message } => {
            assert_eq!(message, "Python download failed after 3 attempts")
        }
        RetryStep::Attempt { .. } => panic!("tried a fourth time"),
    }
}
