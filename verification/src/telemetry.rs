//! OpenTelemetry span contents: which spans are opened and which attributes
//! they carry, and how the tracing settings fall back to the environment.
//!
//! Attributes are plain key/value pairs here; the tracer that records them
//! is driven by the caller.

use vstd::prelude::*;

use crate::bson_frame::decode_error_of;
use crate::error::{DriverError, ErrorKind};
use crate::options::{ServerAddress, DEFAULT_PORT};
use crate::query_text::{query_text, query_text_of};
use crate::text::{concat, concat3, i64_to_decimal};

verus! {

/// The value of a span attribute.
pub enum AttrValue {
    Str(String),
    Int(i64),
}

/// A span attribute.
pub struct Attr {
    pub key: String,
    pub value: AttrValue,
}

/// The view of an attribute value.
pub enum AttrValueView {
    Str(Seq<char>),
    Int(i64),
}

/// The view of an attribute: its key and its value.
pub type AttrView = (Seq<char>, AttrValueView);

impl View for Attr {
    type V = AttrView;

    open spec fn view(&self) -> AttrView {
        (self.key@, match self.value {
            AttrValue::Str(s) => AttrValueView::Str(s@),
            AttrValue::Int(i) => AttrValueView::Int(i),
        })
    }
}

/// The views of a list of attributes.
pub open spec fn attrs_view(v: Seq<Attr>) -> Seq<AttrView> {
    v.map_values(|a: Attr| a@)
}

/// A text attribute.
pub open spec fn text_attr(k: Seq<char>, v: Seq<char>) -> AttrView {
    (k, AttrValueView::Str(v))
}

/// An integer attribute.
pub open spec fn int_attr(k: Seq<char>, v: i64) -> AttrView {
    (k, AttrValueView::Int(v))
}

fn str_attr(key: &str, value: String) -> (r: Attr)
    ensures
        r@ == text_attr(key@, value@),
{
    Attr { key: String::from_str(key), value: AttrValue::Str(value) }
}

fn num_attr(key: &str, value: i64) -> (r: Attr)
    ensures
        r@ == int_attr(key@, value),
{
    Attr { key: String::from_str(key), value: AttrValue::Int(value) }
}

/// What an operation runs against: a database, and a collection in it.
pub struct OperationTarget {
    pub database: String,
    pub collection: Option<String>,
}

impl OperationTarget {
    /// The `admin` database.
    pub fn admin() -> (r: OperationTarget)
        ensures
            r.database@ == "admin"@,
            r.collection is None,
    {
        OperationTarget { database: String::from_str("admin"), collection: None }
    }
}

/// How a target is written: `db.coll`, or `db` alone.
pub open spec fn target_text(t: OperationTarget) -> Seq<char> {
    match t.collection {
        Some(c) => t.database@ + "."@ + c@,
        None => t.database@,
    }
}

/// How `target` is written: `db.coll`, or `db` alone.
pub fn op_target(target: &OperationTarget) -> (r: String)
    ensures
        r@ == target_text(*target),
{
    match &target.collection {
        Some(c) => concat3(target.database.as_str(), ".", c.as_str()),
        None => target.database.clone(),
    }
}

/// The attributes every span of an operation on `t` carries.
pub open spec fn common_attrs_of(t: OperationTarget) -> Seq<AttrView> {
    seq![text_attr("db.system"@, "mongodb"@), text_attr("db.namespace"@, t.database@)] + match t.collection {
        Some(c) => seq![text_attr("db.collection.name"@, c@)],
        None => Seq::empty(),
    }
}

/// The attributes every span of an operation on `target` carries: the
/// system, the database and, when there is one, the collection.
pub fn common_attrs(target: &OperationTarget) -> (r: Vec<Attr>)
    ensures
        attrs_view(r@) == common_attrs_of(*target),
{
    let mut attrs: Vec<Attr> = Vec::new();
    attrs.push(str_attr("db.system", String::from_str("mongodb")));
    attrs.push(str_attr("db.namespace", target.database.clone()));
    if let Some(c) = &target.collection {
        attrs.push(str_attr("db.collection.name", c.clone()));
    }
    proof {
        assert(attrs_view(attrs@) =~= common_attrs_of(*target));
    }
    attrs
}

/// The name of an operation's span: its name, a space, and its target.
pub open spec fn operation_span_name(log_name: Seq<char>, t: OperationTarget) -> Seq<char> {
    log_name + " "@ + target_text(t)
}

/// The span of an operation: its name and attributes, or `None` when
/// tracing is off.
pub fn operation_span(enabled: bool, log_name: &str, target: &OperationTarget) -> (r: Option<(String, Vec<Attr>)>)
    ensures
        !enabled ==> r is None,
        enabled ==> (r matches Some((name, attrs)) && name@ == operation_span_name(log_name@, *target)
            && attrs_view(attrs@) == common_attrs_of(*target) + seq![
                text_attr("db.operation.name"@, log_name@),
                text_attr("db.operation.summary"@, operation_span_name(log_name@, *target)),
            ]),
{
    if !enabled {
        return None;
    }
    let t = op_target(target);
    let name = concat3(log_name, " ", t.as_str());
    let mut attrs = common_attrs(target);
    let ghost base = attrs@;
    attrs.push(str_attr("db.operation.name", String::from_str(log_name)));
    attrs.push(str_attr("db.operation.summary", name.clone()));
    proof {
        assert(attrs_view(attrs@) =~= attrs_view(base) + seq![
            text_attr("db.operation.name"@, log_name@),
            text_attr("db.operation.summary"@, name@),
        ]);
    }
    Some((name, attrs))
}

/// The span of a transaction: named `transaction`, carrying the system.
pub fn transaction_span(enabled: bool) -> (r: Option<(String, Vec<Attr>)>)
    ensures
        !enabled ==> r is None,
        enabled ==> (r matches Some((name, attrs)) && name@ == "transaction"@
            && attrs_view(attrs@) == seq![text_attr("db.system"@, "mongodb"@)]),
{
    if !enabled {
        return None;
    }
    let mut attrs: Vec<Attr> = Vec::new();
    attrs.push(str_attr("db.system", String::from_str("mongodb")));
    proof {
        assert(attrs_view(attrs@) =~= seq![text_attr("db.system"@, "mongodb"@)]);
    }
    Some((String::from_str("transaction"), attrs))
}

/// The relaxed extended JSON text of the document with bytes `doc`.
pub uninterp spec fn relaxed_json_of(doc: Seq<u8>) -> Seq<char>;

/// `bson::Document::from_reader` on `doc`, then `Bson::into_relaxed_extjson`
/// and `to_string` on the document: its relaxed extended JSON text, or
/// `None` when the decoder refuses the bytes.  Rendering a decoded document
/// does not fail.
#[verifier::external_body]
fn relaxed_json(doc: &[u8]) -> (r: Option<String>)
    ensures
        r is Some <==> decode_error_of(doc@) is None,
        r matches Some(t) ==> t@ == relaxed_json_of(doc@),
{
    match bson::Document::from_reader(doc) {
        Ok(d) => Some(bson::Bson::Document(d).into_relaxed_extjson().to_string()),
        Err(_) => None,
    }
}

/// The span contributions of a command: its name, the rendering of its
/// session id when it has one that decodes, and its transaction number when
/// it has one, in that order.
pub open spec fn command_attrs_of(cmd: CommandInfo) -> Seq<AttrView> {
    seq![text_attr("db.command.name"@, cmd.name@)] + (match cmd.lsid {
        Some(b) => if decode_error_of(b@) is None {
            seq![text_attr("db.mongodb.lsid"@, relaxed_json_of(b@))]
        } else {
            Seq::empty()
        },
        None => Seq::empty(),
    }) + (match cmd.txn_number {
        Some(n) => seq![int_attr("db.mongodb.txn_number"@, n)],
        None => Seq::empty(),
    })
}

/// What a command contributes to its span.
pub struct CommandAttributes {
    pub should_redact: bool,
    pub name: String,
    pub attrs: Vec<Attr>,
}

/// The command a span is opened for, as far as spans care.
pub struct CommandInfo {
    pub name: String,
    /// The bytes of the session id document, where there is one.
    pub lsid: Option<Vec<u8>>,
    pub txn_number: Option<i64>,
    pub should_redact: bool,
}

impl CommandAttributes {
    /// The span contributions of `cmd`: its name, the relaxed extended JSON
    /// of its session id when it has one (left out when the id's bytes do
    /// not decode), and its transaction number when it has one, in that
    /// order.
    pub fn new(cmd: &CommandInfo) -> (r: CommandAttributes)
        ensures
            r.should_redact == cmd.should_redact,
            r.name@ == cmd.name@,
            attrs_view(r.attrs@) == command_attrs_of(*cmd),
    {
        let mut attrs: Vec<Attr> = Vec::new();
        attrs.push(str_attr("db.command.name", cmd.name.clone()));
        let ghost a0 = attrs@;
        if let Some(lsid) = &cmd.lsid {
            if let Some(text) = relaxed_json(lsid.as_slice()) {
                attrs.push(str_attr("db.mongodb.lsid", text));
            }
        }
        let ghost a1 = attrs@;
        if let Some(n) = cmd.txn_number {
            attrs.push(num_attr("db.mongodb.txn_number", n));
        }
        proof {
            assert(attrs_view(a0) =~= seq![text_attr("db.command.name"@, cmd.name@)]);
            assert(attrs_view(a1) =~= attrs_view(a0) + (match cmd.lsid {
                Some(b) => if decode_error_of(b@) is None {
                    seq![text_attr("db.mongodb.lsid"@, relaxed_json_of(b@))]
                } else {
                    Seq::<AttrView>::empty()
                },
                None => Seq::<AttrView>::empty(),
            }));
            assert(attrs_view(attrs@) =~= attrs_view(a1) + (match cmd.txn_number {
                Some(n) => seq![int_attr("db.mongodb.txn_number"@, n)],
                None => Seq::<AttrView>::empty(),
            }));
        }
        CommandAttributes { should_redact: cmd.should_redact, name: cmd.name.clone(), attrs }
    }
}

/// What a command span reports of the connection and the server.
pub struct ConnectionDetails {
    pub driver_connection_id: i64,
    pub server_connection_id: Option<i64>,
    pub address: ServerAddress,
    pub server_type: String,
}

/// The attributes that say where a command went: port, host and transport
/// for TCP, the socket path and transport for a Unix socket.
pub open spec fn address_attrs_of(a: ServerAddress) -> Seq<AttrView> {
    match a {
        ServerAddress::Tcp { host, port } => seq![
            int_attr("server.port"@, (match port { Some(p) => p, None => DEFAULT_PORT }) as i64),
            text_attr("server.address"@, host@),
            text_attr("network.transport"@, "tcp"@),
        ],
        ServerAddress::Unix { path } => seq![
            text_attr("server.address"@, path@),
            text_attr("network.transport"@, "unix"@),
        ],
    }
}

/// The query text, or the empty text when there is none.
pub open spec fn query_text_or_empty(t: Option<Seq<char>>) -> Seq<char> {
    match t {
        Some(x) => x,
        None => Seq::empty(),
    }
}

/// The attributes of a command span, in order.
pub open spec fn command_span_attrs_of(
    target: OperationTarget,
    cmd: Seq<AttrView>,
    cmd_name: Seq<char>,
    conn: ConnectionDetails,
    text_max_len: usize,
    query_text: Option<Seq<char>>,
    cursor_id: Option<i64>,
) -> Seq<AttrView> {
    common_attrs_of(target) + cmd + seq![
        text_attr("db.query.summary"@, cmd_name + " "@ + target_text(target)),
        int_attr("db.mongodb.driver_connection_id"@, conn.driver_connection_id),
        text_attr("server.type"@, conn.server_type@),
    ] + address_attrs_of(conn.address) + match conn.server_connection_id {
        Some(id) => seq![int_attr("db.mongodb.server_connection_id"@, id)],
        None => Seq::empty(),
    } + (if text_max_len > 0 {
        seq![text_attr("db.query.text"@, query_text_or_empty(query_text))]
    } else {
        Seq::empty()
    }) + match cursor_id {
        Some(id) => seq![int_attr("db.mongodb.cursor_id"@, id)],
        None => Seq::empty(),
    }
}

fn address_attrs(a: &ServerAddress, attrs: &mut Vec<Attr>)
    ensures
        attrs_view(final(attrs)@) == attrs_view(old(attrs)@) + address_attrs_of(*a),
{
    let ghost base = attrs@;
    match a {
        ServerAddress::Tcp { host, port } => {
            let p: u16 = match port {
                Some(p) => *p,
                None => DEFAULT_PORT,
            };
            attrs.push(num_attr("server.port", p as i64));
            attrs.push(str_attr("server.address", host.clone()));
            attrs.push(str_attr("network.transport", String::from_str("tcp")));
        },
        ServerAddress::Unix { path } => {
            attrs.push(str_attr("server.address", path.clone()));
            attrs.push(str_attr("network.transport", String::from_str("unix")));
        },
    }
    proof {
        assert(attrs_view(attrs@) =~= attrs_view(base) + address_attrs_of(*a));
    }
}

/// The span of a command: named after the command, or `None` when tracing
/// is off or the command is redacted.  When `text_max_len` is positive the
/// span reports the query text of the command document `command` (see
/// [`query_text`]); it is empty where the command's fields cannot be read.
pub fn command_span(
    enabled: bool,
    target: &OperationTarget,
    cmd: CommandAttributes,
    conn: &ConnectionDetails,
    text_max_len: usize,
    command: &[u8],
    cursor_id: Option<i64>,
) -> (r: Option<(String, Vec<Attr>)>)
    ensures
        !enabled || cmd.should_redact ==> r is None,
        enabled && !cmd.should_redact ==> (r matches Some((name, attrs)) && name@ == cmd.name@
            && attrs_view(attrs@) == command_span_attrs_of(
                *target, attrs_view(cmd.attrs@), cmd.name@, *conn, text_max_len,
                query_text_of(command@, text_max_len), cursor_id)),
{
    if !enabled || cmd.should_redact {
        return None;
    }
    let CommandAttributes { should_redact: _, name, attrs: cmd_attrs } = cmd;
    let mut attrs = common_attrs(target);
    let ghost a0 = attrs@;
    let mut i: usize = 0;
    while i < cmd_attrs.len()
        invariant
            i <= cmd_attrs@.len(),
            attrs_view(attrs@) =~= attrs_view(a0) + attrs_view(cmd_attrs@.take(i as int)),
        decreases cmd_attrs@.len() - i,
    {
        let a = &cmd_attrs[i];
        let copy = match &a.value {
            AttrValue::Str(s) => Attr { key: a.key.clone(), value: AttrValue::Str(s.clone()) },
            AttrValue::Int(n) => Attr { key: a.key.clone(), value: AttrValue::Int(*n) },
        };
        assert(copy@ == cmd_attrs@[i as int]@);
        let ghost before = attrs@;
        attrs.push(copy);
        i = i + 1;
        proof {
            assert(attrs_view(attrs@) =~= attrs_view(before).push(cmd_attrs@[i - 1]@));
            assert(cmd_attrs@.take(i as int) =~= cmd_attrs@.take(i - 1).push(cmd_attrs@[i - 1]));
            assert(attrs_view(cmd_attrs@.take(i as int)) =~= attrs_view(cmd_attrs@.take(i - 1)).push(cmd_attrs@[i - 1]@));
            assert(attrs_view(attrs@) =~= attrs_view(a0) + attrs_view(cmd_attrs@.take(i as int)));
        }
    }
    proof {
        assert(cmd_attrs@.take(cmd_attrs@.len() as int) =~= cmd_attrs@);
    }
    let ghost a1 = attrs@;
    let t = op_target(target);
    attrs.push(str_attr("db.query.summary", concat3(name.as_str(), " ", t.as_str())));
    attrs.push(num_attr("db.mongodb.driver_connection_id", conn.driver_connection_id));
    attrs.push(str_attr("server.type", conn.server_type.clone()));
    proof {
        assert(attrs_view(attrs@) =~= attrs_view(a1) + seq![
            text_attr("db.query.summary"@, name@ + " "@ + target_text(*target)),
            int_attr("db.mongodb.driver_connection_id"@, conn.driver_connection_id),
            text_attr("server.type"@, conn.server_type@),
        ]);
    }
    address_attrs(&conn.address, &mut attrs);
    let ghost a2 = attrs@;
    if let Some(id) = conn.server_connection_id {
        attrs.push(num_attr("db.mongodb.server_connection_id", id));
    }
    let ghost a3 = attrs@;
    if text_max_len > 0 {
        let text = match query_text(command, text_max_len) {
            Some(t) => t,
            None => String::new(),
        };
        attrs.push(str_attr("db.query.text", text));
    }
    let ghost a4 = attrs@;
    if let Some(id) = cursor_id {
        attrs.push(num_attr("db.mongodb.cursor_id", id));
    }
    proof {
        assert(attrs_view(a3) =~= attrs_view(a2) + match conn.server_connection_id {
            Some(id) => seq![int_attr("db.mongodb.server_connection_id"@, id)],
            None => Seq::<AttrView>::empty(),
        });
        assert(attrs_view(a4) =~= attrs_view(a3) + (if text_max_len > 0 {
            seq![text_attr("db.query.text"@, query_text_or_empty(query_text_of(command@, text_max_len)))]
        } else {
            Seq::<AttrView>::empty()
        }));
        assert(attrs_view(attrs@) =~= attrs_view(a4) + match cursor_id {
            Some(id) => seq![int_attr("db.mongodb.cursor_id"@, id)],
            None => Seq::<AttrView>::empty(),
        });
    }
    Some((name, attrs))
}

/// The status code a failed command reports: its server error code.
pub open spec fn status_code_of(e: DriverError) -> Option<i32> {
    match e.kind {
        ErrorKind::Command { code, .. } => Some(code),
        _ => None,
    }
}

/// The attributes a span records for a failure: the error's message and
/// kind, and for a server command error its code as text.
pub fn error_attrs(message: String, kind_name: String, error: &DriverError) -> (r: Vec<Attr>)
    ensures
        attrs_view(r@) == seq![
            text_attr("exception.message"@, message@),
            text_attr("exception.type"@, kind_name@),
        ] + match status_code_of(*error) {
            Some(c) => seq![text_attr("db.response.status_code"@, crate::text::signed_decimal(c as int))],
            None => Seq::empty(),
        },
{
    let mut attrs: Vec<Attr> = Vec::new();
    attrs.push(str_attr("exception.message", message));
    attrs.push(str_attr("exception.type", kind_name));
    let ghost base = attrs@;
    if let ErrorKind::Command { code, .. } = &error.kind {
        attrs.push(str_attr("db.response.status_code", i64_to_decimal(*code as i64)));
    }
    proof {
        assert(attrs_view(attrs@) =~= attrs_view(base) + match status_code_of(*error) {
            Some(c) => seq![text_attr("db.response.status_code"@, crate::text::signed_decimal(c as int))],
            None => Seq::<AttrView>::empty(),
        });
    }
    attrs
}

/// Whether the value of the enabling environment variable turns tracing on.
pub open spec fn env_enables(v: Option<Seq<char>>) -> bool {
    v == Some("1"@) || v == Some("true"@) || v == Some("yes"@)
}

/// Whether tracing is on: the client's setting, or else the enabling
/// environment variable (whose value is `env`, if it is set).
pub fn otel_enabled(setting: Option<bool>, env: Option<&str>) -> (r: bool)
    ensures
        r == match setting {
            Some(b) => b,
            None => env_enables(match env {
                Some(s) => Some(s@),
                None => None,
            }),
        },
{
    match setting {
        Some(b) => b,
        None => match env {
            Some(s) => {
                let a = crate::text::str_equal(s, "1");
                let b = crate::text::str_equal(s, "true");
                let c = crate::text::str_equal(s, "yes");
                a || b || c
            },
            None => false,
        },
    }
}

/// The value of the decimal digit `c`.
pub open spec fn digit_value(c: char) -> int {
    (c as int) - ('0' as int)
}

/// Whether `c` is a decimal digit.
pub open spec fn is_digit(c: char) -> bool {
    '0' <= c <= '9'
}

/// The number the digits `s` denote.
pub open spec fn digits_value(s: Seq<char>) -> int
    decreases s.len(),
{
    if s.len() == 0 {
        0
    } else {
        digits_value(s.drop_last()) * 10 + digit_value(s.last())
    }
}

/// The digits of an unsigned decimal: the text without one leading `+`.
pub open spec fn unsigned_digits(s: Seq<char>) -> Seq<char> {
    if s.len() > 0 && s[0] == '+' {
        s.drop_first()
    } else {
        s
    }
}

/// What `str::parse::<usize>` gives for `s`: the number written by one or
/// more decimal digits, optionally after a `+`, when it fits.
pub open spec fn parsed_usize(s: Seq<char>) -> Option<usize> {
    let d = unsigned_digits(s);
    if d.len() > 0 && (forall|i: int| 0 <= i < d.len() ==> is_digit(#[trigger] d[i]))
        && digits_value(d) <= usize::MAX {
        Some(digits_value(d) as usize)
    } else {
        None
    }
}

proof fn lemma_digits_value_nonneg(s: Seq<char>)
    requires
        forall|i: int| 0 <= i < s.len() ==> is_digit(#[trigger] s[i]),
    ensures
        digits_value(s) >= 0,
    decreases s.len(),
{
    if s.len() > 0 {
        lemma_digits_value_nonneg(s.drop_last());
    }
}

proof fn lemma_digits_value_monotone(s: Seq<char>, k: int)
    requires
        0 <= k <= s.len(),
        forall|i: int| 0 <= i < s.len() ==> is_digit(#[trigger] s[i]),
    ensures
        digits_value(s.take(k)) <= digits_value(s),
    decreases s.len() - k,
{
    if k < s.len() {
        lemma_digits_value_monotone(s, k + 1);
        assert(s.take(k + 1).drop_last() =~= s.take(k));
        lemma_digits_value_nonneg(s.take(k));
        assert(is_digit(s[k]));
    }
    assert(s.take(s.len() as int) =~= s);
}

/// `str::parse::<usize>`: the unsigned decimal that `s` writes, if it fits.
pub fn parse_usize(s: &str) -> (r: Option<usize>)
    ensures
        r == parsed_usize(s@),
{
    let chars = crate::text::chars_of(s);
    let ghost d = unsigned_digits(s@);
    let start: usize = if chars.len() > 0 && chars[0] == '+' { 1 } else { 0 };
    proof {
        assert(d =~= chars@.skip(start as int));
    }
    if start >= chars.len() {
        return None;
    }
    let mut value: usize = 0;
    let mut i: usize = start;
    while i < chars.len()
        invariant
            start <= i <= chars@.len(),
            chars@ == s@,
            d == unsigned_digits(s@),
            d =~= chars@.skip(start as int),
            forall|j: int| 0 <= j < i - start ==> is_digit(#[trigger] d[j]),
            value == digits_value(d.take(i - start)),
        decreases chars@.len() - i,
    {
        let c = chars[i];
        if c < '0' || c > '9' {
            proof {
                assert(d[i - start] == c);
                assert(!is_digit(d[i - start]));
            }
            return None;
        }
        let digit: usize = ((c as u32) - ('0' as u32)) as usize;
        proof {
            assert(d.take(i + 1 - start).drop_last() =~= d.take(i - start));
            assert(d[i - start] == c);
        }
        if value > (usize::MAX - digit) / 10 {
            proof {
                assert forall|j: int| 0 <= j < i + 1 - start implies is_digit(#[trigger] d.take(i + 1 - start)[j]) by {
                    assert(d.take(i + 1 - start)[j] == d[j]);
                }
                if forall|j: int| 0 <= j < d.len() ==> is_digit(#[trigger] d[j]) {
                    lemma_digits_value_monotone(d, i + 1 - start);
                }
                assert(d.take(i + 1 - start).last() == c);
                assert(digit_value(c) == digit);
                assert(digits_value(d.take(i + 1 - start)) == value * 10 + digit);
                assert(value * 10 + digit > usize::MAX) by (nonlinear_arith)
                    requires
                        value > (usize::MAX - digit) / 10,
                        digit <= 9,
                ;
            }
            return None;
        }
        proof {
            assert(value * 10 + digit <= usize::MAX) by (nonlinear_arith)
                requires
                    value <= (usize::MAX - digit) / 10,
                    digit <= 9,
            ;
        }
        value = value * 10 + digit;
        i = i + 1;
    }
    proof {
        assert(d.take(d.len() as int) =~= d);
    }
    Some(value)
}

/// The longest `db.query.text` a command span may carry: the client's
/// setting, or else the number in the length environment variable (whose
/// value is `env`, if it is set), or else zero.
pub fn otel_query_text_max_length(setting: Option<usize>, env: Option<&str>) -> (r: usize)
    ensures
        r == match setting {
            Some(n) => n,
            None => match env {
                Some(s) => match parsed_usize(s@) {
                    Some(n) => n,
                    None => 0,
                },
                None => 0,
            },
        },
{
    match setting {
        Some(n) => n,
        None => match env {
            Some(s) => match parse_usize(s) {
                Some(n) => n,
                None => 0,
            },
            None => 0,
        },
    }
}

} // verus!
