//! Read and write concerns created from the caller's options, and the
//! per-operation context (session, read preference, concerns, timeout).

use vstd::prelude::*;
use vstd::utf8::{decode_utf8, valid_utf8};

use crate::ffi_utils::{c_char_to_string, duration_from_millis, millis_duration, opt_bytes};
use crate::options::{
    copy_read_concern, copy_read_preference, copy_write_concern, read_preference_same,
    Acknowledgment, ReadConcern, ReadConcernLevel, ReadPreference, WriteConcern,
};
use crate::text::str_equal;

verus! {

/// Options for creating a read concern: the level's name, absent for none.
pub struct ReadConcernOptions {
    pub level: Option<Vec<u8>>,
}

/// The read concern level named `s` (any other name is a custom level).
pub open spec fn level_named(s: Seq<char>) -> ReadConcernLevel {
    if s == "local"@ {
        ReadConcernLevel::Local
    } else if s == "majority"@ {
        ReadConcernLevel::Majority
    } else if s == "linearizable"@ {
        ReadConcernLevel::Linearizable
    } else if s == "available"@ {
        ReadConcernLevel::Available
    } else if s == "snapshot"@ {
        ReadConcernLevel::Snapshot
    } else {
        ReadConcernLevel::Custom(arbitrary())
    }
}

/// Whether `l` is the level named `s`.
pub open spec fn is_level_named(l: ReadConcernLevel, s: Seq<char>) -> bool {
    match l {
        ReadConcernLevel::Custom(c) => level_named(s) is Custom && c@ == s,
        _ => l == level_named(s),
    }
}

/// Each standard level is named by its own word and no other: `local`,
/// `majority`, `linearizable`, `available` and `snapshot`; any other name is
/// a custom level carrying that name.
pub proof fn read_concern_levels_by_name(l: ReadConcernLevel, s: Seq<char>)
    requires
        is_level_named(l, s),
    ensures
        l is Local <==> s == "local"@,
        l is Majority <==> s == "majority"@,
        l is Linearizable <==> s == "linearizable"@,
        l is Available <==> s == "available"@,
        l is Snapshot <==> s == "snapshot"@,
        l matches ReadConcernLevel::Custom(c) ==> c@ == s,
{
    reveal_strlit("local");
    reveal_strlit("majority");
    reveal_strlit("linearizable");
    reveal_strlit("available");
    reveal_strlit("snapshot");
    assert("local"@ != "majority"@) by { assert("local"@.len() != "majority"@.len()); }
    assert("local"@ != "linearizable"@) by { assert("local"@.len() != "linearizable"@.len()); }
    assert("local"@ != "available"@) by { assert("local"@.len() != "available"@.len()); }
    assert("local"@ != "snapshot"@) by { assert("local"@.len() != "snapshot"@.len()); }
    assert("majority"@ != "linearizable"@) by { assert("majority"@.len() != "linearizable"@.len()); }
    assert("majority"@ != "available"@) by { assert("majority"@.len() != "available"@.len()); }
    assert("majority"@ != "snapshot"@) by { assert("majority"@[0] != "snapshot"@[0]); }
    assert("linearizable"@ != "available"@) by { assert("linearizable"@.len() != "available"@.len()); }
    assert("linearizable"@ != "snapshot"@) by { assert("linearizable"@.len() != "snapshot"@.len()); }
    assert("available"@ != "snapshot"@) by { assert("available"@.len() != "snapshot"@.len()); }
}

/// The read concern level with the given name.
pub fn read_concern_level_from_str(s: &str) -> (r: ReadConcernLevel)
    ensures
        is_level_named(r, s@),
        r is Local <==> s@ == "local"@,
        r is Majority <==> s@ == "majority"@,
        r is Linearizable <==> s@ == "linearizable"@,
        r is Available <==> s@ == "available"@,
        r is Snapshot <==> s@ == "snapshot"@,
{
    let r = read_concern_level_named(s);
    proof {
        read_concern_levels_by_name(r, s@);
    }
    r
}

fn read_concern_level_named(s: &str) -> (r: ReadConcernLevel)
    ensures
        is_level_named(r, s@),
{
    if str_equal(s, "local") {
        ReadConcernLevel::Local
    } else if str_equal(s, "majority") {
        ReadConcernLevel::Majority
    } else if str_equal(s, "linearizable") {
        ReadConcernLevel::Linearizable
    } else if str_equal(s, "available") {
        ReadConcernLevel::Available
    } else if str_equal(s, "snapshot") {
        ReadConcernLevel::Snapshot
    } else {
        ReadConcernLevel::Custom(String::from_str(s))
    }
}

/// Creates a read concern from the caller's options; `None` when the options
/// or the level are absent or the level is not UTF-8.
pub fn read_concern_create(options: Option<&ReadConcernOptions>) -> (r: Option<ReadConcern>)
    ensures
        match options {
            None => r is None,
            Some(o) => match o.level {
                None => r is None,
                Some(b) => if valid_utf8(b@) {
                    r matches Some(c) && is_level_named(c.level, decode_utf8(b@))
                } else {
                    r is None
                },
            },
        },
{
    let o = match options {
        None => return None,
        Some(o) => o,
    };
    let b = match &o.level {
        None => return None,
        Some(b) => b,
    };
    let s = match c_char_to_string(Some(b.as_slice())) {
        Ok(Some(s)) => s,
        _ => return None,
    };
    Some(ReadConcern { level: read_concern_level_from_str(s.as_str()) })
}

/// Options for creating a write concern, with `-1` (or any negative) for
/// "not set"; a present `w_tag` overrides `w`.
pub struct WriteConcernOptions {
    pub w: i32,
    pub w_tag: Option<Vec<u8>>,
    pub journal: i8,
    pub w_timeout_ms: i64,
}

/// Whether `a` is the acknowledgment named `s`: `"majority"` or a custom tag.
pub open spec fn is_ack_named(a: Acknowledgment, s: Seq<char>) -> bool {
    if s == "majority"@ {
        a is Majority
    } else {
        a matches Acknowledgment::Custom(c) && c@ == s
    }
}

/// The tag `majority` is the majority acknowledgment, and every other tag
/// is a custom acknowledgment carrying that tag.
pub proof fn majority_is_the_only_named_acknowledgment(a: Acknowledgment, s: Seq<char>)
    requires
        is_ack_named(a, s),
    ensures
        a is Majority <==> s == "majority"@,
        a is Majority || (a matches Acknowledgment::Custom(c) && c@ == s),
{
}

/// The acknowledgment named by a tag.
pub fn acknowledgment_from_str(s: &str) -> (r: Acknowledgment)
    ensures
        is_ack_named(r, s@),
{
    if str_equal(s, "majority") {
        Acknowledgment::Majority
    } else {
        Acknowledgment::Custom(String::from_str(s))
    }
}

/// Creates a write concern from the caller's options; `None` when the options
/// are absent or the tag is not UTF-8.  A journal value of `0` is `false`
/// and any other non-negative value `true`.
pub fn write_concern_create(options: Option<&WriteConcernOptions>) -> (r: Option<WriteConcern>)
    ensures
        match options {
            None => r is None,
            Some(o) => match o.w_tag {
                Some(b) if !valid_utf8(b@) => r is None,
                _ => r matches Some(wc) && (match o.w_tag {
                    Some(b) => wc.w matches Some(a) && is_ack_named(a, decode_utf8(b@)),
                    None => wc.w == (if o.w >= 0 {
                        Some(Acknowledgment::Nodes(o.w as u32))
                    } else {
                        None
                    }),
                }) && wc.journal == (if o.journal >= 0 {
                    Some(o.journal != 0)
                } else {
                    None
                }) && wc.w_timeout == (if o.w_timeout_ms >= 0 {
                    Some(millis_duration(o.w_timeout_ms as u64))
                } else {
                    None
                }),
            },
        },
{
    let o = match options {
        None => return None,
        Some(o) => o,
    };
    let w = match &o.w_tag {
        Some(b) => {
            let s = match c_char_to_string(Some(b.as_slice())) {
                Ok(Some(s)) => s,
                _ => return None,
            };
            Some(acknowledgment_from_str(s.as_str()))
        },
        None => if o.w >= 0 {
            Some(Acknowledgment::Nodes(o.w as u32))
        } else {
            None
        },
    };
    let journal = if o.journal >= 0 {
        Some(o.journal != 0)
    } else {
        None
    };
    let w_timeout = if o.w_timeout_ms >= 0 {
        Some(duration_from_millis(o.w_timeout_ms as u64))
    } else {
        None
    };
    Some(WriteConcern { w, w_timeout, journal })
}

/// A handle naming a session that the caller holds.
#[derive(PartialEq, Eq, Structural, Clone, Copy, Debug)]
pub struct SessionHandle(pub u64);

/// Context and options used by every operation; absent fields inherit the
/// defaults, and a negative timeout means "not set".
pub struct OperationContext {
    pub session: Option<SessionHandle>,
    pub read_preference: Option<ReadPreference>,
    pub write_concern: Option<WriteConcern>,
    pub read_concern: Option<ReadConcern>,
    pub timeout_ms: i64,
}

/// The session of a context, if any.
pub fn context_session(ctx: Option<&OperationContext>) -> (r: Option<SessionHandle>)
    ensures
        r == (match ctx {
            Some(c) => c.session,
            None => None,
        }),
{
    match ctx {
        None => None,
        Some(c) => c.session,
    }
}

/// A copy of the read preference of a context, if any.
pub fn context_read_preference(ctx: Option<&OperationContext>) -> (r: Option<ReadPreference>)
    ensures
        match ctx {
            Some(c) => match c.read_preference {
                Some(p) => r matches Some(q) && read_preference_same(q, p),
                None => r is None,
            },
            None => r is None,
        },
{
    match ctx {
        None => None,
        Some(c) => match &c.read_preference {
            None => None,
            Some(p) => Some(copy_read_preference(p)),
        },
    }
}

/// A copy of the write concern of a context, if any.
pub fn context_write_concern(ctx: Option<&OperationContext>) -> (r: Option<WriteConcern>)
    ensures
        r == (match ctx {
            Some(c) => c.write_concern,
            None => None,
        }),
{
    match ctx {
        None => None,
        Some(c) => match &c.write_concern {
            None => None,
            Some(w) => Some(copy_write_concern(w)),
        },
    }
}

/// A copy of the read concern of a context, if any.
pub fn context_read_concern(ctx: Option<&OperationContext>) -> (r: Option<ReadConcern>)
    ensures
        r == (match ctx {
            Some(c) => c.read_concern,
            None => None,
        }),
{
    match ctx {
        None => None,
        Some(c) => match &c.read_concern {
            None => None,
            Some(w) => Some(copy_read_concern(w)),
        },
    }
}

} // verus!
