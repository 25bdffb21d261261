//! The decision core of the bridge logger.
//!
//! The installed process-wide logger holds the backend's context handle
//! and answers the logging capability set: `enabled`, `log`, `flush`.
//! Everything it decides — the backend level, the rendered text, the
//! sentinel substitution — is computed here; the unverified driver only
//! hands the result to the backend's emission call and discards the
//! backend's return code, since the facade is fire-and-forget.

use vstd::prelude::*;
use crate::severity::{backend_level_of, map_severity, BackendLevel, Severity};
use crate::text::{contains_nul, marshal_message, render_record, rendered_text, sentinel_text, NativeText};

verus! {

/// The prepared form of one log record: the backend level and the
/// marshaled text of one emission call.
pub struct Emission {
    pub level: BackendLevel,
    pub text: NativeText,
}

/// The bridge logger's decision core. It holds no state: the backend
/// context handle lives with the driver that owns the native calls.
pub struct DltLogger {}

impl DltLogger {
    /// Every severity is enabled, before and after any registration:
    /// level gating is delegated entirely to the backend, which filters
    /// per context at emission time.
    pub fn enabled(&self, _severity: Severity) -> (r: bool)
        ensures
            r == true,
    {
        true
    }

    /// Decides the emission for one log record: the mapped backend
    /// level, and the rendered text — or the sentinel, when the
    /// rendered text holds an embedded NUL. The result is always
    /// well-formed, so this path never fails observably.
    pub fn prepare(
        &self,
        severity: Severity,
        file: Option<&str>,
        line: Option<u32>,
        message: &str,
    ) -> (e: Emission)
        ensures
            e.level == backend_level_of(severity),
            e.text@ == if contains_nul(rendered_text(file.deep_view(), line, message@)) {
                sentinel_text()
            } else {
                rendered_text(file.deep_view(), line, message@)
            },
            e.text.wf(),
    {
        let level = map_severity(severity);
        let rendered = render_record(file, line, message);
        let text = marshal_message(rendered.as_str());
        Emission { level, text }
    }

    /// Flushing is a no-op: the bridge buffers nothing, and the backend
    /// owns its own buffering. It never fails and changes nothing.
    pub fn flush(&self) {
    }
}

} // verus!
