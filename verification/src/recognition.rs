//! Turning the crop into text, and handing the text on.
//!
//! There are three engines. The on-device service recognises the crop file
//! when the selection is finished. The external helper is a bundled program,
//! one build for each processor vendor, that is started by the trigger
//! itself. An unsupported platform recognises nothing, which is a success
//! with no text. After a recognition that succeeded the text is forwarded,
//! the focused window is remembered, and only then the result window is
//! asked to surface.

use crate::text::{contains, format_i32, has_substring, replace, replaced, signed_decimal, trim, trimmed};
use vstd::prelude::*;
use vstd::string::StringExecFns;
use vstd::utf8::{decode_utf8, valid_utf8};

verus! {

/// The engine of the platform, chosen once at startup.
#[derive(Clone, Copy, Debug, PartialEq, Eq, Structural)]
pub enum RecognitionEngine {
    OnDeviceService,
    ExternalHelper,
    Unsupported,
}

/// The two builds of the helper program.
#[derive(Clone, Copy, Debug, PartialEq, Eq, Structural)]
pub enum HelperBinary {
    Apple,
    Intel,
}

/// The characters that `String::from_utf8_lossy` reads out of bytes.
pub uninterp spec fn utf8_lossy(bytes: Seq<u8>) -> Seq<char>;

/// Reads bytes as UTF-8 with `String::from_utf8_lossy`, which puts the
/// replacement character in place of what is no UTF-8. Nothing of this is
/// proved here: the contract names the result, and says with the
/// documentation that bytes which are UTF-8 are read as they are.
#[verifier::external_body]
fn decode_lossy(bytes: &Vec<u8>) -> (res: String)
    ensures
        res@ == utf8_lossy(bytes@),
        valid_utf8(bytes@) ==> res@ == decode_utf8(bytes@),
{
    String::from_utf8_lossy(bytes).into_owned()
}

/// The vendor name that selects the `Apple` build.
pub open spec fn apple_vendor() -> Seq<char> {
    seq!['A', 'p', 'p', 'l', 'e']
}

/// The build of the helper for a processor of the given vendor.
pub open spec fn helper_of(cpu_vendor: Seq<char>) -> HelperBinary {
    if cpu_vendor == apple_vendor() {
        HelperBinary::Apple
    } else {
        HelperBinary::Intel
    }
}

/// The build of the helper for a processor of the given vendor: the `Apple`
/// build for the vendor `Apple`, the `Intel` build for every other.
pub fn helper_for(cpu_vendor: &str) -> (res: HelperBinary)
    ensures
        res == helper_of(cpu_vendor@),
{
    let vendor = String::from_str(cpu_vendor);
    let apple = String::from_str("Apple");
    proof {
        reveal_strlit("Apple");
        assert("Apple"@ =~= apple_vendor());
    }
    if vendor == apple {
        HelperBinary::Apple
    } else {
        HelperBinary::Intel
    }
}

/// Where the build lies among the bundled resources.
pub fn helper_resource(binary: HelperBinary) -> (res: &'static str)
    ensures
        res@ == match binary {
            HelperBinary::Apple => "resources/bin/ocr_apple"@,
            HelperBinary::Intel => "resources/bin/ocr_intel"@,
        },
{
    match binary {
        HelperBinary::Apple => "resources/bin/ocr_apple",
        HelperBinary::Intel => "resources/bin/ocr_intel",
    }
}

/// The arguments of the helper: the crop file, then the language hint.
pub fn helper_arguments(crop_path: &str) -> (res: Vec<String>)
    ensures
        res@.len() == 3,
        res@[0]@ == crop_path@,
        res@[1]@ == "-l"@,
        res@[2]@ == "zh"@,
{
    let mut arguments: Vec<String> = Vec::new();
    arguments.push(String::from_str(crop_path));
    arguments.push(String::from_str("-l"));
    arguments.push(String::from_str("zh"));
    arguments
}

/// How an exit code is written in an error: `Some(..)` around the number,
/// or `None` where the helper was ended by a signal.
pub open spec fn exit_code_text(code: Option<i32>) -> Seq<char> {
    match code {
        Some(c) => "Some("@ + signed_decimal(c as int) + ")"@,
        None => "None"@,
    }
}

/// The error of a helper that ended without success.
pub open spec fn helper_failure_text(code: Option<i32>, stderr: Seq<u8>) -> Seq<char> {
    "OCR binary failed with exit code "@ + exit_code_text(code) + ": "@ + utf8_lossy(stderr)
}

/// What the run of the helper came to: its standard output as it is where
/// it ended with success, else an error with its exit code and what it
/// wrote to standard error.
pub fn helper_result(success: bool, code: Option<i32>, stdout: &Vec<u8>, stderr: &Vec<u8>) -> (res:
    Result<String, String>)
    ensures
        success ==> (res matches Ok(text) && text@ == utf8_lossy(stdout@)),
        success && valid_utf8(stdout@) ==> (res matches Ok(text) && text@ == decode_utf8(stdout@)),
        !success ==> (res matches Err(message) && message@ == helper_failure_text(code, stderr@)),
{
    if success {
        Ok(decode_lossy(stdout))
    } else {
        let mut message = String::from_str("OCR binary failed with exit code ");
        match code {
            Some(c) => {
                message.append("Some(");
                message.append(format_i32(c).as_str());
                message.append(")");
                assert(message@ =~= "OCR binary failed with exit code "@ + exit_code_text(code));
            },
            None => {
                message.append("None");
            },
        }
        message.append(": ");
        message.append(decode_lossy(stderr).as_str());
        Err(message)
    }
}

/// The marker of a path that is not to be normalised.
pub open spec fn verbatim_marker() -> Seq<char> {
    seq!['\\', '\\', '?', '\\']
}

/// The path of the crop file as the on-device service takes it: without the
/// marker `\\?\`, wherever it stands.
pub fn plain_path(path: &str) -> (res: String)
    ensures
        res@ == replaced(path@, verbatim_marker(), Seq::empty()),
{
    proof {
        reveal_strlit("\\\\?\\");
        reveal_strlit("");
        assert("\\\\?\\"@ =~= verbatim_marker());
        assert(""@ =~= Seq::<char>::empty());
    }
    replace(path, "\\\\?\\", "")
}

/// The lines as one text: each line trimmed, with a line feed behind it.
pub open spec fn joined_lines(lines: Seq<String>) -> Seq<char>
    decreases lines.len(),
{
    if lines.len() == 0 {
        Seq::empty()
    } else {
        joined_lines(lines.drop_last()) + trimmed(lines.last()@).push('\n')
    }
}

/// The recognised lines as one text, in order: each line without the
/// whitespace around it, and a line feed behind each.
pub fn join_lines(lines: &Vec<String>) -> (res: String)
    ensures
        res@ == joined_lines(lines@),
{
    let mut content = String::new();
    let mut i: usize = 0;
    assert(lines@.take(0) =~= Seq::<String>::empty());
    while i < lines.len()
        invariant
            i <= lines.len(),
            content@ == joined_lines(lines@.take(i as int)),
        decreases lines.len() - i,
    {
        let line = trim(lines[i].as_str());
        let ghost before = content@;
        content.append(line.as_str());
        content.push('\n');
        assert(lines@.take(i + 1).drop_last() =~= lines@.take(i as int));
        assert(content@ =~= before + trimmed(lines@[i as int]@).push('\n'));
        i = i + 1;
    }
    assert(lines@.take(lines.len() as int) =~= lines@);
    content
}

/// The sign in an engine error that no recognition language is installed.
pub open spec fn missing_language_sign() -> Seq<char> {
    "0x00000000"@
}

/// What to tell the user where the engine could not be made.
pub open spec fn engine_failure_text(error: Seq<char>) -> Seq<char> {
    if has_substring(error, missing_language_sign()) {
        "Language package not installed!\n\nSee: https://learn.microsoft.com/zh-cn/windows/powertoys/text-extractor#supported-languages"@
    } else {
        error
    }
}

/// What the on-device recognition came to. `outcome` holds the recognised
/// lines, or the text of the error with which the engine could not be made.
/// The lines become the text to forward. An error that carries the sign of
/// a missing language pack becomes the advice to install one; any other
/// stays as it is.
pub fn do_ocr_with_cut_file_path(outcome: Result<&Vec<String>, &str>) -> (res: Result<String, String>)
    ensures
        match outcome {
            Ok(lines) => res matches Ok(text) && text@ == joined_lines(lines@),
            Err(error) => res matches Err(message) && message@ == engine_failure_text(error@),
        },
{
    match outcome {
        Ok(lines) => Ok(join_lines(lines)),
        Err(error) => {
            if contains(error, "0x00000000") {
                Err(
                    String::from_str(
                        "Language package not installed!\n\nSee: https://learn.microsoft.com/zh-cn/windows/powertoys/text-extractor#supported-languages",
                    ),
                )
            } else {
                Err(String::from_str(error))
            }
        },
    }
}

} // verus!
