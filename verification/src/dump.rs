//! From the bytes captured from a process to the dump that is written out.

use vstd::prelude::*;
use vstd::string::StringExecFns;
use crate::capture::{fit_to_size, fitted};
use crate::clock::is_timestamp;
use crate::name::{chosen_base, file_name_of, output_file_name, timestamped_file_name};
use crate::sections::{normalize, normalized};
use crate::validate::{validate, validation, FormatError};

verus! {

/// What is known of the module that is dumped.
#[derive(Debug)]
pub struct ModuleDescriptor {
    /// The address at which the module is mapped in the process.
    pub base: u64,
    /// The number of bytes the module takes up in memory.
    pub size: usize,
    /// The name the module is known by, such as `app.exe`.
    pub name: String,
}

/// A dump that is ready to be written: the file's name and its contents.
#[derive(Debug)]
pub struct Dump {
    pub file_name: String,
    pub image: Vec<u8>,
}

/// Why no dump was made. Each failure ends the dump; none is retried.
#[derive(Debug)]
pub enum DumpError {
    /// The process, or its primary module, was not found.
    NotFound,
    /// Nothing could be read from the process's memory.
    ReadFailed,
    /// The bytes read are not an image of the expected shape.
    Format(FormatError),
    /// The file could not be written; the text is the system's own.
    WriteFailed(String),
}

impl DumpError {
    /// The text shown to the user for this error.
    pub open spec fn message_text(self) -> Seq<char> {
        match self {
            DumpError::NotFound => "process or module not found"@,
            DumpError::ReadFailed => "unable to read target memory"@,
            DumpError::Format(error) => error.message_text(),
            DumpError::WriteFailed(reason) => reason@,
        }
    }

    /// The message shown to the user: one text for each kind of failure, and
    /// for a failed check the text that names the check.
    pub fn message(&self) -> (text: String)
        ensures
            text@ == self.message_text(),
    {
        match self {
            DumpError::NotFound => String::from_str("process or module not found"),
            DumpError::ReadFailed => String::from_str("unable to read target memory"),
            DumpError::Format(error) => error.message(),
            DumpError::WriteFailed(reason) => reason.clone(),
        }
    }
}

/// The image that is written for a capture: the capture brought to the
/// module's size and, if it passes the checks, with its section table
/// rewritten; else the error of the first check that fails.
pub open spec fn dumped_image(captured: Seq<u8>, size: nat) -> Result<Seq<u8>, FormatError> {
    match validation(fitted(captured, size)) {
        Ok(()) => Ok(normalized(fitted(captured, size))),
        Err(error) => Err(error),
    }
}

/// Makes the image to write from the bytes that were captured: brings them to
/// `size` bytes, checks the headers, and rewrites the section table.
pub fn prepare_image(captured: Vec<u8>, size: usize) -> (result: Result<Vec<u8>, FormatError>)
    ensures
        match result {
            Ok(image) => dumped_image(captured@, size as nat) == Ok::<Seq<u8>, FormatError>(image@),
            Err(error) => dumped_image(captured@, size as nat) == Err::<Seq<u8>, FormatError>(
                error,
            ),
        },
        result is Ok <==> validation(fitted(captured@, size as nat)) is Ok,
        result matches Ok(image) ==> image@.len() == size,
{
    let mut image = fit_to_size(captured, size);
    match validate(image.as_slice()) {
        Ok(()) => {
            normalize(&mut image);
            Ok(image)
        },
        Err(error) => Err(error),
    }
}

/// Makes the dump of a module from the bytes captured of it, for a given
/// timestamp: the image as `prepare_image` makes it, under the name that
/// `output_file_name` gives.
pub fn dump_process_at(
    module: &ModuleDescriptor,
    captured: Vec<u8>,
    file_name: Option<String>,
    timestamp: &str,
) -> (result: Result<Dump, FormatError>)
    ensures
        match result {
            Ok(dump) => {
                &&& dumped_image(captured@, module.size as nat) == Ok::<Seq<u8>, FormatError>(
                    dump.image@,
                )
                &&& dump.file_name@ == file_name_of(
                    chosen_base(module.name@, file_name),
                    timestamp@,
                )
            },
            Err(error) => dumped_image(captured@, module.size as nat) == Err::<
                Seq<u8>,
                FormatError,
            >(error),
        },
{
    match prepare_image(captured, module.size) {
        Ok(image) => {
            let name = output_file_name(module.name.as_str(), file_name, timestamp);
            Ok(Dump { file_name: name, image })
        },
        Err(error) => Err(error),
    }
}

/// Makes the dump of a module from the bytes captured of it, stamped with the
/// current time. The image and the failures are those of `dump_process_at`;
/// of the name, only the time that the timestamp tells is left to the clock.
pub fn dump_process(module: &ModuleDescriptor, captured: Vec<u8>, file_name: Option<String>) -> (result:
    Result<Dump, FormatError>)
    ensures
        match result {
            Ok(dump) => {
                &&& dumped_image(captured@, module.size as nat) == Ok::<Seq<u8>, FormatError>(
                    dump.image@,
                )
                &&& exists|timestamp: Seq<char>|
                    is_timestamp(timestamp) && dump.file_name@ == #[trigger] file_name_of(
                        chosen_base(module.name@, file_name),
                        timestamp,
                    )
            },
            Err(error) => dumped_image(captured@, module.size as nat) == Err::<
                Seq<u8>,
                FormatError,
            >(error),
        },
{
    match prepare_image(captured, module.size) {
        Ok(image) => {
            let name = timestamped_file_name(module.name.as_str(), file_name);
            Ok(Dump { file_name: name, image })
        },
        Err(error) => Err(error),
    }
}

} // verus!
