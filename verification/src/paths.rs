//! Locating the PlantUML payload and the Java interpreter.
//!
//! Two independent resolutions, each a fallback chain: the payload is looked
//! for in the packaged resource directory first and in the development layout
//! second, and is fatal to a start when absent from both; the interpreter is
//! the bundled runtime when present, else the system `java`, and never fails
//! here. Whether a candidate file exists is operating-system work done by the
//! caller, which hands the candidate paths and the observations in.
//!
//! Payload paths are normalized before being passed as a process argument:
//! Windows path resolution can prepend the verbatim marker `\\?\`, which the
//! child would otherwise receive verbatim.

use vstd::prelude::*;

verus! {

/// Whether `s` starts with the verbatim long-path marker `\\?\`.
pub open spec fn has_verbatim_prefix(s: Seq<char>) -> bool {
    &&& s.len() >= 4
    &&& s[0] == '\\'
    &&& s[1] == '\\'
    &&& s[2] == '?'
    &&& s[3] == '\\'
}

/// `s` with every leading occurrence of the verbatim marker removed.
pub open spec fn strip_verbatim_prefix(s: Seq<char>) -> Seq<char>
    decreases s.len(),
{
    if has_verbatim_prefix(s) {
        strip_verbatim_prefix(s.skip(4))
    } else {
        s
    }
}

/// Strips the verbatim long-path marker from a payload path.
pub fn normalize_jar_path(s: &str) -> (r: String)
    ensures
        r@ == strip_verbatim_prefix(s@),
{
    let len = s.unicode_len();
    let mut start: usize = 0;
    let mut stripping = true;
    proof {
        assert(s@.skip(0) =~= s@);
    }
    while stripping
        invariant
            len == s@.len(),
            start <= len,
            strip_verbatim_prefix(s@) == strip_verbatim_prefix(s@.skip(start as int)),
            !stripping ==> !has_verbatim_prefix(s@.skip(start as int)),
        decreases len - start, (if stripping { 1int } else { 0int }),
    {
        let mut advanced = false;
        if len - start >= 4 {
            let c0 = s.get_char(start);
            let c1 = s.get_char(start + 1);
            let c2 = s.get_char(start + 2);
            let c3 = s.get_char(start + 3);
            if c0 == '\\' && c1 == '\\' && c2 == '?' && c3 == '\\' {
                proof {
                    assert(has_verbatim_prefix(s@.skip(start as int)));
                    assert(s@.skip(start as int).skip(4) =~= s@.skip(start as int + 4));
                }
                start = start + 4;
                advanced = true;
            }
        }
        if !advanced {
            stripping = false;
        }
    }
    let tail = s.substring_char(start, len);
    proof {
        assert(tail@ =~= s@.skip(start as int));
    }
    String::from_str(tail)
}

/// Picks the payload path: the packaged resource location when the file is
/// there, else the development location when that file is there, else none
/// (fatal to a start). The caller hands in each candidate path together with
/// whether the file was observed to exist; the packaged candidate is absent
/// when no resource directory could be resolved.
pub fn choose_jar_path(
    resource_jar: Option<String>,
    resource_jar_exists: bool,
    dev_jar: String,
    dev_jar_exists: bool,
) -> (r: Option<String>)
    ensures
        r == (if resource_jar is Some && resource_jar_exists {
            resource_jar
        } else if dev_jar_exists {
            Some(dev_jar)
        } else {
            None::<String>
        }),
{
    match resource_jar {
        Some(p) => {
            if resource_jar_exists {
                Some(p)
            } else if dev_jar_exists {
                Some(dev_jar)
            } else {
                None
            }
        },
        None => {
            if dev_jar_exists {
                Some(dev_jar)
            } else {
                None
            }
        },
    }
}

/// Picks the interpreter: the bundled runtime when present, else the system
/// `java` expected on the executable search path. Never fails — a missing
/// bundled runtime only changes which fallback is returned, deferring any
/// real failure to launch time.
pub fn choose_java_path(bundled_java: Option<String>, bundled_java_exists: bool) -> (r: String)
    ensures
        (bundled_java is Some && bundled_java_exists) ==> Some(r) == bundled_java,
        !(bundled_java is Some && bundled_java_exists) ==> r@ == "java"@,
{
    match bundled_java {
        Some(p) => {
            if bundled_java_exists {
                p
            } else {
                String::from_str("java")
            }
        },
        None => String::from_str("java"),
    }
}

} // verus!
