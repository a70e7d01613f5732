//! Diagnostic callback bridge: decodes the validation layer's severity and
//! category bitmasks and a bounded message payload into one structured log
//! line, and always answers with the "do not abort the instrumented call"
//! sentinel.

use vstd::prelude::*;
use vstd::string::StringExecFns;

verus! {

/// Severity bit meaning "verbose" in the validation layer's bitmask.
pub const SEVERITY_VERBOSE: u32 = 0x1;

/// Severity bit meaning "info".
pub const SEVERITY_INFO: u32 = 0x10;

/// Severity bit meaning "warning".
pub const SEVERITY_WARNING: u32 = 0x100;

/// Severity bit meaning "error".
pub const SEVERITY_ERROR: u32 = 0x1000;

/// Category bit meaning "general".
pub const CATEGORY_GENERAL: u32 = 0x1;

/// Category bit meaning "validation".
pub const CATEGORY_VALIDATION: u32 = 0x2;

/// Category bit meaning "performance".
pub const CATEGORY_PERFORMANCE: u32 = 0x4;

/// The driver-facing answer meaning "do not abort the instrumented call".
/// A diagnostic callback must never alter the call it reports on.
pub const CONTINUE_SENTINEL: u32 = 0;

/// Upper bound on the bytes read from a message payload, protecting against
/// a malformed or unterminated buffer from a misbehaving driver.
pub const MAX_MESSAGE_BYTES: usize = 65536;

/// The names of the severity bits that are set, in ascending bit order.
pub open spec fn spec_severity_names(bits: u32) -> Seq<Seq<char>> {
    let s0 = Seq::<Seq<char>>::empty();
    let s1 = if bits & SEVERITY_VERBOSE != 0 { s0.push("verbose"@) } else { s0 };
    let s2 = if bits & SEVERITY_INFO != 0 { s1.push("info"@) } else { s1 };
    let s3 = if bits & SEVERITY_WARNING != 0 { s2.push("warning"@) } else { s2 };
    if bits & SEVERITY_ERROR != 0 { s3.push("error"@) } else { s3 }
}

/// The names of the category bits that are set, in ascending bit order.
pub open spec fn spec_category_names(bits: u32) -> Seq<Seq<char>> {
    let s0 = Seq::<Seq<char>>::empty();
    let s1 = if bits & CATEGORY_GENERAL != 0 { s0.push("general"@) } else { s0 };
    let s2 = if bits & CATEGORY_VALIDATION != 0 { s1.push("validation"@) } else { s1 };
    if bits & CATEGORY_PERFORMANCE != 0 { s2.push("performance"@) } else { s2 }
}

/// The given names joined with a comma and a space.
pub open spec fn spec_join(parts: Seq<Seq<char>>) -> Seq<char>
    decreases parts.len(),
{
    if parts.len() == 0 {
        Seq::<char>::empty()
    } else if parts.len() == 1 {
        parts[0]
    } else {
        parts[0] + ", "@ + spec_join(parts.drop_first())
    }
}

/// The tag decoded from a severity bitmask: the joined names of the set
/// bits, or "unknown" when no known bit is set.
pub open spec fn spec_severity_tag(bits: u32) -> Seq<char> {
    if spec_severity_names(bits).len() == 0 {
        "unknown"@
    } else {
        spec_join(spec_severity_names(bits))
    }
}

/// The tag decoded from a category bitmask: the joined names of the set
/// bits, or "unknown" when no known bit is set.
pub open spec fn spec_category_tag(bits: u32) -> Seq<char> {
    if spec_category_names(bits).len() == 0 {
        "unknown"@
    } else {
        spec_join(spec_category_names(bits))
    }
}

/// Appends `name` to `out`, preceded by a separator when `out` already
/// holds earlier names.
fn push_name(out: &mut String, any: bool, name: &str)
    ensures
        final(out)@ == if any {
            old(out)@ + ", "@ + name@
        } else {
            old(out)@ + name@
        },
{
    if any {
        out.append(", ");
    }
    out.append(name);
}

/// Decodes a severity bitmask into its tag.
pub fn severity_tag(bits: u32) -> (tag: String)
    ensures
        tag@ == spec_severity_tag(bits),
{
    let mut out = String::new();
    let mut any: bool = false;
    if bits & SEVERITY_VERBOSE != 0 {
        push_name(&mut out, any, "verbose");
        any = true;
    }
    if bits & SEVERITY_INFO != 0 {
        push_name(&mut out, any, "info");
        any = true;
    }
    if bits & SEVERITY_WARNING != 0 {
        push_name(&mut out, any, "warning");
        any = true;
    }
    if bits & SEVERITY_ERROR != 0 {
        push_name(&mut out, any, "error");
        any = true;
    }
    if !any {
        out.append("unknown");
    }
    proof {
        reveal_with_fuel(spec_join, 5);
    }
    out
}

/// Decodes a category bitmask into its tag.
pub fn category_tag(bits: u32) -> (tag: String)
    ensures
        tag@ == spec_category_tag(bits),
{
    let mut out = String::new();
    let mut any: bool = false;
    if bits & CATEGORY_GENERAL != 0 {
        push_name(&mut out, any, "general");
        any = true;
    }
    if bits & CATEGORY_VALIDATION != 0 {
        push_name(&mut out, any, "validation");
        any = true;
    }
    if bits & CATEGORY_PERFORMANCE != 0 {
        push_name(&mut out, any, "performance");
        any = true;
    }
    if !any {
        out.append("unknown");
    }
    proof {
        reveal_with_fuel(spec_join, 4);
    }
    out
}

/// What `push` does to membership: the new element is in, everything else
/// is in exactly when it already was.
proof fn lemma_push_contains<A>(s: Seq<A>, a: A, x: A)
    ensures
        s.push(a).contains(x) <==> (s.contains(x) || x == a),
{
    if s.contains(x) {
        let i = choose|i: int| 0 <= i < s.len() && s[i] == x;
        assert(s.push(a)[i] == x);
    }
    if x == a {
        assert(s.push(a)[s.len() as int] == x);
    }
    if s.push(a).contains(x) {
        let i = choose|i: int| 0 <= i < s.push(a).len() && s.push(a)[i] == x;
        if i < s.len() {
            assert(s[i] == x);
        }
    }
}

/// Pushing an element that is not yet present keeps a sequence free of
/// duplicates.
proof fn lemma_push_no_duplicates<A>(s: Seq<A>, a: A)
    requires
        s.no_duplicates(),
        !s.contains(a),
    ensures
        s.push(a).no_duplicates(),
{
    let t = s.push(a);
    assert forall|i: int, j: int| 0 <= i < j < t.len() implies t[i] != t[j] by {
        if j == s.len() {
            assert(t[i] == s[i]);
            if s[i] == a {
                assert(s.contains(a));
            }
        }
    }
}

/// The decoded category names are exactly the names of the set bits, each
/// exactly once. (They are also deterministic for a given input: the
/// decoding is a function of the bitmask alone.)
pub proof fn lemma_category_names_exact(bits: u32)
    ensures
        spec_category_names(bits).contains("general"@) <==> bits & CATEGORY_GENERAL != 0,
        spec_category_names(bits).contains("validation"@) <==> bits & CATEGORY_VALIDATION != 0,
        spec_category_names(bits).contains("performance"@) <==> bits & CATEGORY_PERFORMANCE != 0,
        spec_category_names(bits).no_duplicates(),
{
    reveal_strlit("general");
    reveal_strlit("validation");
    reveal_strlit("performance");
    assert("general"@.len() == 7);
    assert("validation"@.len() == 10);
    assert("performance"@.len() == 11);
    let s0 = Seq::<Seq<char>>::empty();
    let s1 = if bits & CATEGORY_GENERAL != 0 {
        s0.push("general"@)
    } else {
        s0
    };
    let s2 = if bits & CATEGORY_VALIDATION != 0 {
        s1.push("validation"@)
    } else {
        s1
    };
    let s3 = if bits & CATEGORY_PERFORMANCE != 0 {
        s2.push("performance"@)
    } else {
        s2
    };
    assert(spec_category_names(bits) == s3);
    lemma_push_contains(s0, "general"@, "general"@);
    lemma_push_contains(s0, "general"@, "validation"@);
    lemma_push_contains(s0, "general"@, "performance"@);
    lemma_push_contains(s1, "validation"@, "general"@);
    lemma_push_contains(s1, "validation"@, "validation"@);
    lemma_push_contains(s1, "validation"@, "performance"@);
    lemma_push_contains(s2, "performance"@, "general"@);
    lemma_push_contains(s2, "performance"@, "validation"@);
    lemma_push_contains(s2, "performance"@, "performance"@);
    if bits & CATEGORY_GENERAL != 0 {
        lemma_push_no_duplicates(s0, "general"@);
    }
    if bits & CATEGORY_VALIDATION != 0 {
        lemma_push_no_duplicates(s1, "validation"@);
    }
    if bits & CATEGORY_PERFORMANCE != 0 {
        lemma_push_no_duplicates(s2, "performance"@);
    }
}

/// The decoded severity names are exactly the names of the set bits, each
/// exactly once. (They are also deterministic for a given input.)
pub proof fn lemma_severity_names_exact(bits: u32)
    ensures
        spec_severity_names(bits).contains("verbose"@) <==> bits & SEVERITY_VERBOSE != 0,
        spec_severity_names(bits).contains("info"@) <==> bits & SEVERITY_INFO != 0,
        spec_severity_names(bits).contains("warning"@) <==> bits & SEVERITY_WARNING != 0,
        spec_severity_names(bits).contains("error"@) <==> bits & SEVERITY_ERROR != 0,
        spec_severity_names(bits).no_duplicates(),
{
    reveal_strlit("verbose");
    reveal_strlit("info");
    reveal_strlit("warning");
    reveal_strlit("error");
    assert("verbose"@.len() == 7);
    assert("info"@.len() == 4);
    assert("warning"@.len() == 7);
    assert("error"@.len() == 5);
    assert("verbose"@[0] == 'v' && "warning"@[0] == 'w');
    let s0 = Seq::<Seq<char>>::empty();
    let s1 = if bits & SEVERITY_VERBOSE != 0 {
        s0.push("verbose"@)
    } else {
        s0
    };
    let s2 = if bits & SEVERITY_INFO != 0 {
        s1.push("info"@)
    } else {
        s1
    };
    let s3 = if bits & SEVERITY_WARNING != 0 {
        s2.push("warning"@)
    } else {
        s2
    };
    let s4 = if bits & SEVERITY_ERROR != 0 {
        s3.push("error"@)
    } else {
        s3
    };
    assert(spec_severity_names(bits) == s4);
    lemma_push_contains(s0, "verbose"@, "verbose"@);
    lemma_push_contains(s0, "verbose"@, "info"@);
    lemma_push_contains(s0, "verbose"@, "warning"@);
    lemma_push_contains(s0, "verbose"@, "error"@);
    lemma_push_contains(s1, "info"@, "verbose"@);
    lemma_push_contains(s1, "info"@, "info"@);
    lemma_push_contains(s1, "info"@, "warning"@);
    lemma_push_contains(s1, "info"@, "error"@);
    lemma_push_contains(s2, "warning"@, "verbose"@);
    lemma_push_contains(s2, "warning"@, "info"@);
    lemma_push_contains(s2, "warning"@, "warning"@);
    lemma_push_contains(s2, "warning"@, "error"@);
    lemma_push_contains(s3, "error"@, "verbose"@);
    lemma_push_contains(s3, "error"@, "info"@);
    lemma_push_contains(s3, "error"@, "warning"@);
    lemma_push_contains(s3, "error"@, "error"@);
    if bits & SEVERITY_VERBOSE != 0 {
        lemma_push_no_duplicates(s0, "verbose"@);
    }
    if bits & SEVERITY_INFO != 0 {
        lemma_push_no_duplicates(s1, "info"@);
    }
    if bits & SEVERITY_WARNING != 0 {
        lemma_push_no_duplicates(s2, "warning"@);
    }
    if bits & SEVERITY_ERROR != 0 {
        lemma_push_no_duplicates(s3, "error"@);
    }
}

/// Extracts the usable payload of a diagnostic message: the bytes before
/// the first nul terminator, capped at `MAX_MESSAGE_BYTES`. An absent
/// payload — the driver handed over a null pointer — decodes to the empty
/// message rather than failing.
pub fn decode_message(raw: Option<&Vec<u8>>) -> (m: Vec<u8>)
    ensures
        raw is None ==> m@ == Seq::<u8>::empty(),
        raw matches Some(b) ==> {
            &&& m@.len() <= MAX_MESSAGE_BYTES
            &&& m@.len() <= b@.len()
            &&& m@ == b@.subrange(0, m@.len() as int)
            &&& forall|j: int| 0 <= j < m@.len() ==> m@[j] != 0
            &&& m@.len() < b@.len() && m@.len() < MAX_MESSAGE_BYTES ==> b@[m@.len() as int]
                == 0
        },
{
    match raw {
        None => Vec::new(),
        Some(b) => {
            let mut m: Vec<u8> = Vec::new();
            let mut i: usize = 0;
            while i < b.len() && i < MAX_MESSAGE_BYTES && b[i] != 0
                invariant
                    i <= b@.len(),
                    i <= MAX_MESSAGE_BYTES,
                    m@.len() == i,
                    m@ == b@.subrange(0, i as int),
                    forall|j: int| 0 <= j < i ==> b@[j] != 0,
                decreases b@.len() - i,
            {
                m.push(b[i]);
                proof {
                    assert(m@ =~= b@.subrange(0, i + 1));
                }
                i = i + 1;
            }
            m
        },
    }
}

/// Builds the structured log line for one diagnostic invocation:
/// `[Debug][{severity}][{category}] "{message}"`.
pub open spec fn spec_report_line(
    severity_bits: u32,
    category_bits: u32,
    message: Seq<char>,
) -> Seq<char> {
    "[Debug]["@ + spec_severity_tag(severity_bits) + "]["@ + spec_category_tag(category_bits)
        + "] \""@ + message + "\""@
}

/// Decodes one diagnostic invocation into the structured log line for the
/// observability sink, and answers with the sentinel that tells the driver
/// to continue the instrumented call. The sentinel is the same whatever the
/// inputs: a validation callback never alters the call it reports on.
pub fn report(severity_bits: u32, category_bits: u32, message: &str) -> (r: (String, u32))
    ensures
        r.0@ == spec_report_line(severity_bits, category_bits, message@),
        r.1 == CONTINUE_SENTINEL,
{
    let mut line = String::new();
    line.append("[Debug][");
    let sev = severity_tag(severity_bits);
    line.append(sev.as_str());
    line.append("][");
    let cat = category_tag(category_bits);
    line.append(cat.as_str());
    line.append("] \"");
    line.append(message);
    line.append("\"");
    (line, CONTINUE_SENTINEL)
}

} // verus!
