use pedump::capture::fit_to_size;
use pedump::dump::{dump_process, dump_process_at, prepare_image, DumpError, ModuleDescriptor};
use pedump::sections::read_section;
use pedump::validate::FormatError;
use pedump::verbosity::{log_level, LogLevel};

/// An image with one section, whose section table starts at offset 0x188.
fn sample_image() -> Vec<u8> {
    let mut image = vec![0u8; 0x2000];
    for (k, byte) in image.iter_mut().enumerate() {
        *byte = (k % 253) as u8;
    }
    image[0] = b'M';
    image[1] = b'Z';
    image[60..64].copy_from_slice(&0x80u32.to_le_bytes());
    image[0x80..0x84].copy_from_slice(b"PE\0\0");
    image[0x86..0x88].copy_from_slice(&1u16.to_le_bytes());
    image[0x94..0x96].copy_from_slice(&0xF0u16.to_le_bytes());
    let at = 0x80 + 24 + 0xF0;
    image[at..at + 8].copy_from_slice(b".text\0\0\0");
    image[at + 8..at + 12].copy_from_slice(&0x500u32.to_le_bytes());
    image[at + 12..at + 16].copy_from_slice(&0x1000u32.to_le_bytes());
    image[at + 16..at + 20].copy_from_slice(&0x200u32.to_le_bytes());
    image[at + 20..at + 24].copy_from_slice(&0x400u32.to_le_bytes());
    image
}

fn sample_module(size: usize) -> ModuleDescriptor {
    ModuleDescriptor { base: 0x1_4000_0000, size, name: String::from("sample.exe") }
}

#[test]
fn fit_to_size_fills_a_short_capture_with_zeros() {
    assert_eq!(fit_to_size(vec![1, 2, 3], 6), vec![1, 2, 3, 0, 0, 0]);
    assert_eq!(fit_to_size(vec![], 2), vec![0, 0]);
}

#[test]
fn fit_to_size_cuts_a_long_capture() {
    assert_eq!(fit_to_size(vec![1, 2, 3, 4], 2), vec![1, 2]);
    assert_eq!(fit_to_size(vec![1, 2, 3, 4], 0), Vec::<u8>::new());
}

#[test]
fn fit_to_size_keeps_a_full_capture() {
    assert_eq!(fit_to_size(vec![9, 8, 7], 3), vec![9, 8, 7]);
}

#[test]
fn prepare_image_rewrites_a_full_capture() {
    let given = sample_image();
    let image = prepare_image(given.clone(), given.len()).unwrap();
    let section = read_section(&image, 0).unwrap();
    assert_eq!(section.raw_pointer, 0x1000);
    assert_eq!(section.raw_size, 0x500);
    assert_eq!(section.virtual_address, 0x1000);
    assert_eq!(section.virtual_size, 0x500);
}

#[test]
fn prepare_image_zero_fills_a_short_read() {
    let given = sample_image();
    let captured = given[..0x400].to_vec();
    let image = prepare_image(captured, given.len()).unwrap();
    assert_eq!(image.len(), given.len());
    assert!(image[0x400..].iter().all(|byte| *byte == 0));
    assert_eq!(read_section(&image, 0).unwrap().raw_pointer, 0x1000);
    let at = 0x80 + 24 + 0xF0;
    assert_eq!(&image[..at + 16], &given[..at + 16]);
    assert_eq!(&image[at + 24..0x400], &given[at + 24..0x400]);
}

#[test]
fn prepare_image_rejects_a_read_that_stops_in_the_headers() {
    let given = sample_image();
    // the zero fill wipes the secondary header's signature
    assert_eq!(
        prepare_image(given[..0x80].to_vec(), given.len()),
        Err(FormatError::InvalidNtSignature)
    );
    // nothing was captured at all
    assert_eq!(prepare_image(Vec::new(), given.len()), Err(FormatError::InvalidDosSignature));
    // the module is too small to hold the leading header
    assert_eq!(prepare_image(given.clone(), 10), Err(FormatError::Truncated));
    assert_eq!(prepare_image(given, 0), Err(FormatError::Truncated));
}

#[test]
fn prepare_image_reports_each_failed_check() {
    let mut image = sample_image();
    image[0] = 0;
    assert_eq!(prepare_image(image, 0x2000), Err(FormatError::InvalidDosSignature));
    let mut image = sample_image();
    image[60] = 0x82;
    assert_eq!(prepare_image(image, 0x2000), Err(FormatError::MisalignedNtHeader));
    let mut image = sample_image();
    image[0x83] = 1;
    assert_eq!(prepare_image(image, 0x2000), Err(FormatError::InvalidNtSignature));
    let mut image = sample_image();
    image[0x87] = 0xFF;
    assert_eq!(prepare_image(image, 0x2000), Err(FormatError::Truncated));
}

#[test]
fn dump_of_sample_module_end_to_end() {
    let given = sample_image();
    let module = sample_module(given.len());
    let dump = dump_process_at(&module, given.clone(), None, "2024-05-06-070809").unwrap();
    assert_eq!(dump.file_name, "sample_2024-05-06-070809_dump.exe");
    let section = read_section(&dump.image, 0).unwrap();
    assert_eq!(section.raw_pointer, 0x1000);
    assert_eq!(section.raw_size, 0x500);
    assert_eq!(section.virtual_address, 0x1000);
    assert_eq!(section.virtual_size, 0x500);
    let at = 0x80 + 24 + 0xF0;
    assert_eq!(dump.image.len(), given.len());
    assert_eq!(&dump.image[..at + 16], &given[..at + 16]);
    assert_eq!(&dump.image[at + 16..at + 20], &0x500u32.to_le_bytes());
    assert_eq!(&dump.image[at + 20..at + 24], &0x1000u32.to_le_bytes());
    assert_eq!(&dump.image[at + 24..], &given[at + 24..]);
}

#[test]
fn dump_with_override_uses_it_as_base() {
    let given = sample_image();
    let module = sample_module(given.len());
    let dump =
        dump_process_at(&module, given, Some(String::from("mine")), "2024-05-06-070809").unwrap();
    assert_eq!(dump.file_name, "mine_2024-05-06-070809_dump.exe");
}

#[test]
fn dump_fails_with_the_error_of_the_image() {
    let mut given = sample_image();
    given[1] = 0;
    let module = sample_module(given.len());
    let result = dump_process_at(&module, given.clone(), None, "2024-05-06-070809");
    assert!(matches!(result, Err(FormatError::InvalidDosSignature)));
    let result = dump_process(&module, given, None);
    assert!(matches!(result, Err(FormatError::InvalidDosSignature)));
}

#[test]
fn dump_process_stamps_the_name_with_the_current_time() {
    let given = sample_image();
    let module = sample_module(given.len());
    let dump = dump_process(&module, given.clone(), None).unwrap();
    let stamp = dump
        .file_name
        .strip_prefix("sample_")
        .unwrap()
        .strip_suffix("_dump.exe")
        .unwrap()
        .to_string();
    let shape: String = stamp.chars().map(|c| if c.is_ascii_digit() { '9' } else { c }).collect();
    assert_eq!(shape, "9999-99-99-999999");
    let same = dump_process_at(&module, given, None, &stamp).unwrap();
    assert_eq!(same.file_name, dump.file_name);
    assert_eq!(same.image, dump.image);
}

#[test]
fn dump_error_messages() {
    assert_eq!(DumpError::NotFound.message(), "process or module not found");
    assert_eq!(DumpError::ReadFailed.message(), "unable to read target memory");
    assert_eq!(
        DumpError::Format(FormatError::InvalidDosSignature).message(),
        "invalid dos header magic"
    );
    assert_eq!(
        DumpError::Format(FormatError::MisalignedNtHeader).message(),
        "dos header is misaligned"
    );
    assert_eq!(
        DumpError::Format(FormatError::InvalidNtSignature).message(),
        "invalid nt header signature"
    );
    assert_eq!(DumpError::Format(FormatError::Truncated).message(), "image is truncated");
    assert_eq!(
        DumpError::WriteFailed(String::from("permission denied")).message(),
        "permission denied"
    );
}

#[test]
fn log_level_rises_with_the_flag_count() {
    assert_eq!(log_level(0), LogLevel::Error);
    assert_eq!(log_level(1), LogLevel::Warn);
    assert_eq!(log_level(2), LogLevel::Info);
    assert_eq!(log_level(3), LogLevel::Debug);
    assert_eq!(log_level(4), LogLevel::Trace);
    assert_eq!(log_level(5), LogLevel::Trace);
    assert_eq!(log_level(255), LogLevel::Trace);
}
