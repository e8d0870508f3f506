//! Transcode plan compiler for a broadcast-delivery encoder.
//!
//! Turns probed source properties (duration, frame rate, channel count) and a
//! small set of business rules into a fully determined encode plan: a
//! duration-correction decision, an audio channel-mapping policy, a
//! size-constrained bitrate computation, and a registration-code resolution
//! rule.  Everything that touches a process, the filesystem or a screen lives
//! outside this crate and consumes the plans built here verbatim.

use vstd::prelude::*;

pub mod config;
pub mod encoder;
pub mod error;
pub mod metadata;
pub mod numstr;
pub mod slate;
pub mod strutil;

verus! {

/// Relies on std::path::Path::exists for the template search.  Nothing is
/// promised of the answer: it depends on the machine's disk state.
#[verifier::external_body]
fn path_exists(path: &str) -> bool {
    std::path::Path::new(path).exists()
}

/// Searches the usual locations for the slate template image: the working
/// directory's `assets/`, then the same up to two levels above the
/// executable's directory.  Whatever the disk holds, a found template is one
/// of exactly those four candidates.
pub fn find_template(exe_dir: &str) -> (r: Result<String, crate::error::EncoderError>)
    ensures
        r matches Ok(p) ==> p@ == "assets/template.png"@ || p@ == exe_dir@
            + "/assets/template.png"@ || p@ == exe_dir@ + "/../assets/template.png"@ || p@
            == exe_dir@ + "/../../assets/template.png"@,
        r matches Err(e) ==> e matches crate::error::EncoderError::TemplateNotFound(m) && m@
            == "Coloque o arquivo em assets/template.png (1920x1080)"@,
{
    let c0 = String::from_str("assets/template.png");
    if path_exists(c0.as_str()) {
        return Ok(c0);
    }
    let mut c1 = String::from_str(exe_dir);
    c1.append("/assets/template.png");
    if path_exists(c1.as_str()) {
        return Ok(c1);
    }
    let mut c2 = String::from_str(exe_dir);
    c2.append("/../assets/template.png");
    if path_exists(c2.as_str()) {
        return Ok(c2);
    }
    let mut c3 = String::from_str(exe_dir);
    c3.append("/../../assets/template.png");
    if path_exists(c3.as_str()) {
        return Ok(c3);
    }
    Err(
        crate::error::EncoderError::TemplateNotFound(
            String::from_str("Coloque o arquivo em assets/template.png (1920x1080)"),
        ),
    )
}

} // verus!
