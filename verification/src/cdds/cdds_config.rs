use vstd::prelude::*;
use vstd::string::*;

use crate::config::{log_level_name, LogLevel};

verus! {

/// The tracing section of the DDS configuration: empty when tracing is off,
/// else a trace of the given category at fine verbosity, to a log file per process.
pub open spec fn spec_tracing_section(trace_enabled: bool, trace_level: Seq<char>) -> Seq<char> {
    if trace_enabled {
        "<Tracing><Category>"@ + trace_level
            + "</Category><Verbosity>fine</Verbosity><OutputFile>cdds.log.${CYCLONEDDS_PID}</OutputFile></Tracing>"@
    } else {
        Seq::empty()
    }
}

/// The text of a flag in the DDS configuration.
pub open spec fn spec_flag_text(b: bool) -> Seq<char> {
    if b {
        "true"@
    } else {
        "false"@
    }
}

/// The DDS configuration document: shared memory on or off with its log
/// level, and the tracing section.
pub open spec fn spec_cdds_config(
    enable_shared_memory: bool,
    shared_memory_log: LogLevel,
    trace_enabled: bool,
    trace_level: Seq<char>,
) -> Seq<char> {
    "<?xml version=\"1.0\" encoding=\"UTF-8\" ?>\n    <CycloneDDS xmlns=\"https://cdds.io/config\"\n                xmlns:xsi=\"http://www.w3.org/2001/XMLSchema-instance\"\n                xsi:schemaLocation=\"https://cdds.io/config https://raw.githubusercontent.com/eclipse-cyclonedds/cyclonedds/iceoryx/etc/cyclonedds.xsd\">\n        <Domain id=\"any\">\n            <SharedMemory>\n                <Enable>"@
        + spec_flag_text(enable_shared_memory)
        + "</Enable>\n                <LogLevel>"@
        + log_level_name(shared_memory_log)
        + "</LogLevel>\n            </SharedMemory>\n            "@
        + spec_tracing_section(trace_enabled, trace_level)
        + "\n        </Domain>\n    </CycloneDDS>\n    "@
}

/// The DDS configuration document for the given shared memory and tracing settings.
pub fn cdds_config(
    enable_shared_memory: bool,
    shared_memory_log: LogLevel,
    trace_enabled: bool,
    trace_level: &str,
) -> (r: String)
    ensures
        r@ == spec_cdds_config(enable_shared_memory, shared_memory_log, trace_enabled, trace_level@),
        ({
            let f: int = if enable_shared_memory { 4 } else { 5 };
            let p: int = 422 + f;
            let n = log_level_name(shared_memory_log).len() as int;
            &&& r@.subrange(386, 386 + f) == (if enable_shared_memory { "true"@ } else { "false"@ })
            &&& r@.subrange(p - 10, p) == "<LogLevel>"@
            &&& r@.subrange(p, p + n) == log_level_name(shared_memory_log)
            &&& r@.subrange(p + n, p + n + 11) == "</LogLevel>"@
        }),
{
    proof {
        lemma_config_elements(enable_shared_memory, shared_memory_log, trace_enabled, trace_level@);
    }
    let mut s = String::from_str(
        "<?xml version=\"1.0\" encoding=\"UTF-8\" ?>\n    <CycloneDDS xmlns=\"https://cdds.io/config\"\n                xmlns:xsi=\"http://www.w3.org/2001/XMLSchema-instance\"\n                xsi:schemaLocation=\"https://cdds.io/config https://raw.githubusercontent.com/eclipse-cyclonedds/cyclonedds/iceoryx/etc/cyclonedds.xsd\">\n        <Domain id=\"any\">\n            <SharedMemory>\n                <Enable>",
    );
    if enable_shared_memory {
        s.append("true");
    } else {
        s.append("false");
    }
    s.append("</Enable>\n                <LogLevel>");
    s.append(shared_memory_log.as_str());
    s.append("</LogLevel>\n            </SharedMemory>\n            ");
    let ghost before_tracing = s@;
    if trace_enabled {
        s.append("<Tracing><Category>");
        s.append(trace_level);
        s.append(
            "</Category><Verbosity>fine</Verbosity><OutputFile>cdds.log.${CYCLONEDDS_PID}</OutputFile></Tracing>",
        );
    }
    assert(s@ =~= before_tracing + spec_tracing_section(trace_enabled, trace_level@));
    s.append("\n        </Domain>\n    </CycloneDDS>\n    ");
    s
}

/// The document's `<Enable>` element holds "true" exactly when shared memory
/// is enabled, and its `<LogLevel>` element holds the name of the given log
/// level, whatever the other settings are: the header is 386 characters, the
/// flag follows it, and the log level name follows the flag after the 36
/// characters that close `<Enable>` and open `<LogLevel>`.
pub proof fn lemma_config_elements(
    enable_shared_memory: bool,
    shared_memory_log: LogLevel,
    trace_enabled: bool,
    trace_level: Seq<char>,
)
    ensures
        ({
            let doc = spec_cdds_config(enable_shared_memory, shared_memory_log, trace_enabled, trace_level);
            let f: int = if enable_shared_memory { 4 } else { 5 };
            let p: int = 422 + f;
            let n = log_level_name(shared_memory_log).len() as int;
            &&& doc.subrange(378, 386) == "<Enable>"@
            &&& doc.subrange(386, 386 + f) == (if enable_shared_memory { "true"@ } else { "false"@ })
            &&& doc.subrange(386 + f, 395 + f) == "</Enable>"@
            &&& doc.subrange(p - 10, p) == "<LogLevel>"@
            &&& doc.subrange(p, p + n) == log_level_name(shared_memory_log)
            &&& doc.subrange(p + n, p + n + 11) == "</LogLevel>"@
        }),
{
    reveal_strlit("<?xml version=\"1.0\" encoding=\"UTF-8\" ?>\n    <CycloneDDS xmlns=\"https://cdds.io/config\"\n                xmlns:xsi=\"http://www.w3.org/2001/XMLSchema-instance\"\n                xsi:schemaLocation=\"https://cdds.io/config https://raw.githubusercontent.com/eclipse-cyclonedds/cyclonedds/iceoryx/etc/cyclonedds.xsd\">\n        <Domain id=\"any\">\n            <SharedMemory>\n                <Enable>");
    reveal_strlit("</Enable>\n                <LogLevel>");
    reveal_strlit("</LogLevel>\n            </SharedMemory>\n            ");
    reveal_strlit("true");
    reveal_strlit("false");
    reveal_strlit("<Enable>");
    reveal_strlit("</Enable>");
    reveal_strlit("<LogLevel>");
    reveal_strlit("</LogLevel>");
    reveal_strlit("verbose");
    reveal_strlit("debug");
    reveal_strlit("info");
    reveal_strlit("warn");
    reveal_strlit("error");
    reveal_strlit("fatal");
    reveal_strlit("off");
    let h = "<?xml version=\"1.0\" encoding=\"UTF-8\" ?>\n    <CycloneDDS xmlns=\"https://cdds.io/config\"\n                xmlns:xsi=\"http://www.w3.org/2001/XMLSchema-instance\"\n                xsi:schemaLocation=\"https://cdds.io/config https://raw.githubusercontent.com/eclipse-cyclonedds/cyclonedds/iceoryx/etc/cyclonedds.xsd\">\n        <Domain id=\"any\">\n            <SharedMemory>\n                <Enable>"@;
    let fl = spec_flag_text(enable_shared_memory);
    let m = "</Enable>\n                <LogLevel>"@;
    let name = log_level_name(shared_memory_log);
    let rest = "</LogLevel>\n            </SharedMemory>\n            "@ + spec_tracing_section(
        trace_enabled,
        trace_level,
    ) + "\n        </Domain>\n    </CycloneDDS>\n    "@;
    let doc = spec_cdds_config(enable_shared_memory, shared_memory_log, trace_enabled, trace_level);
    assert(doc =~= h + fl + m + name + rest);
    let f: int = if enable_shared_memory { 4 } else { 5 };
    let p: int = 422 + f;
    let n = name.len() as int;
    assert(h.len() == 386);
    assert(fl.len() == f);
    assert(m.len() == 36);
    assert(doc.subrange(378, 386) =~= h.subrange(378, 386));
    assert(h.subrange(378, 386) =~= "<Enable>"@);
    assert(doc.subrange(386, 386 + f) =~= fl);
    assert(doc.subrange(386 + f, 395 + f) =~= m.subrange(0, 9));
    assert(m.subrange(0, 9) =~= "</Enable>"@);
    assert(doc.subrange(p - 10, p) =~= m.subrange(26, 36));
    assert(m.subrange(26, 36) =~= "<LogLevel>"@);
    assert(doc.subrange(p, p + n) =~= name);
    assert(doc.subrange(p + n, p + n + 11) =~= rest.subrange(0, 11));
    assert(rest.subrange(0, 11) =~= "</LogLevel>"@);
}

/// With tracing off the trace level plays no part: the document is the same
/// for every level, and it holds no tracing section.
pub proof fn lemma_trace_level_unused_when_tracing_off(
    enable_shared_memory: bool,
    shared_memory_log: LogLevel,
    a: Seq<char>,
    b: Seq<char>,
)
    ensures
        spec_cdds_config(enable_shared_memory, shared_memory_log, false, a) == spec_cdds_config(
            enable_shared_memory,
            shared_memory_log,
            false,
            b,
        ),
        spec_tracing_section(false, a) == Seq::<char>::empty(),
{
}

} // verus!
