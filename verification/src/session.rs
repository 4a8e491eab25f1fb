//! Session identifiers and what they stand for.

use crate::text::{self, decimal_text, join, parse_u64, strip_prefix};
use vstd::prelude::*;

verus! {

/// What stands in front of a thread in a session identifier.
pub const THREAD_PREFIX: &'static str = "thread:";

/// What stands in front of a connection in a session identifier.
pub const CONN_PREFIX: &'static str = "conn:";

/// What stands in front of an MCP server in a session identifier.
pub const MCP_PREFIX: &'static str = "mcp:";

/// The session identifier of a thread.
pub fn thread_to_session_id(thread_id: &str) -> (r: String)
    ensures
        r@ == THREAD_PREFIX@ + thread_id@,
{
    join(THREAD_PREFIX, thread_id)
}

/// The session identifier of a connection.
pub fn conn_to_session_id(connection_id: u64) -> (r: String)
    ensures
        r@ == CONN_PREFIX@ + text::decimal(connection_id as nat),
{
    join(CONN_PREFIX, decimal_text(connection_id).as_str())
}

/// The session identifier of an MCP server.
pub fn mcp_to_session_id(server_name: &str) -> (r: String)
    ensures
        r@ == MCP_PREFIX@ + server_name@,
{
    join(MCP_PREFIX, server_name)
}

/// The name of the MCP server that a session identifier stands for.
pub fn extract_mcp_server_name(session_id: &str) -> (r: Option<&str>)
    ensures
        match text::stripped(session_id@, MCP_PREFIX@) {
            Some(name) => r matches Some(found) && found@ == name,
            None => r is None,
        },
{
    strip_prefix(session_id, MCP_PREFIX)
}

/// The thread that a session identifier stands for.
pub fn extract_thread_id(session_id: &str) -> (r: Option<&str>)
    ensures
        match text::stripped(session_id@, THREAD_PREFIX@) {
            Some(thread) => r matches Some(found) && found@ == thread,
            None => r is None,
        },
{
    strip_prefix(session_id, THREAD_PREFIX)
}

/// What a session identifier stands for.
#[derive(Debug, PartialEq, Eq)]
pub enum SessionType {
    Thread(String),
    Connection(u64),
    Mcp(String),
    Unknown(String),
}

/// What a [`SessionType`] holds.
#[verifier::ext_equal]
pub enum SessionTypeView {
    Thread(Seq<char>),
    Connection(u64),
    Mcp(Seq<char>),
    Unknown(Seq<char>),
}

impl View for SessionType {
    type V = SessionTypeView;

    open spec fn view(&self) -> SessionTypeView {
        match self {
            SessionType::Thread(text) => SessionTypeView::Thread(text@),
            SessionType::Connection(n) => SessionTypeView::Connection(*n),
            SessionType::Mcp(text) => SessionTypeView::Mcp(text@),
            SessionType::Unknown(text) => SessionTypeView::Unknown(text@),
        }
    }
}

/// What a session identifier stands for: the part behind one of the three
/// prefixes, and otherwise nothing known. Behind the prefix of a connection stands
/// a number.
pub open spec fn session_type_of(session_id: Seq<char>) -> SessionTypeView {
    if text::has_prefix(session_id, THREAD_PREFIX@) {
        SessionTypeView::Thread(session_id.skip(THREAD_PREFIX@.len() as int))
    } else if text::has_prefix(session_id, CONN_PREFIX@) {
        match text::parsed_u64(session_id.skip(CONN_PREFIX@.len() as int)) {
            Some(n) => SessionTypeView::Connection(n),
            None => SessionTypeView::Unknown(session_id),
        }
    } else if text::has_prefix(session_id, MCP_PREFIX@) {
        SessionTypeView::Mcp(session_id.skip(MCP_PREFIX@.len() as int))
    } else {
        SessionTypeView::Unknown(session_id)
    }
}

impl SessionType {
    /// Tells what a session identifier stands for.
    pub fn from_session_id(session_id: &str) -> (r: Self)
        ensures
            r@ == session_type_of(session_id@),
    {
        if let Some(thread_id) = strip_prefix(session_id, THREAD_PREFIX) {
            SessionType::Thread(thread_id.to_owned())
        } else if let Some(connection_id) = strip_prefix(session_id, CONN_PREFIX) {
            match parse_u64(connection_id) {
                Some(n) => SessionType::Connection(n),
                None => SessionType::Unknown(session_id.to_owned()),
            }
        } else if let Some(server_name) = strip_prefix(session_id, MCP_PREFIX) {
            SessionType::Mcp(server_name.to_owned())
        } else {
            SessionType::Unknown(session_id.to_owned())
        }
    }
}

impl Clone for SessionType {
    fn clone(&self) -> (r: Self)
        ensures
            r == *self,
    {
        match self {
            SessionType::Thread(text) => SessionType::Thread(text.clone()),
            SessionType::Connection(n) => SessionType::Connection(*n),
            SessionType::Mcp(text) => SessionType::Mcp(text.clone()),
            SessionType::Unknown(text) => SessionType::Unknown(text.clone()),
        }
    }
}

/// Behind a prefix stands what was put there.
proof fn lemma_prefix_is_stripped(prefix: Seq<char>, rest: Seq<char>)
    ensures
        text::stripped(prefix + rest, prefix) == Some(rest),
{
    assert((prefix + rest).subrange(0, prefix.len() as int) =~= prefix);
    assert((prefix + rest).skip(prefix.len() as int) =~= rest);
}

/// No session identifier starts with two of the prefixes.
pub proof fn law_prefixes_exclude_each_other(session_id: Seq<char>)
    ensures
        !(text::has_prefix(session_id, THREAD_PREFIX@) && text::has_prefix(session_id, CONN_PREFIX@)),
        !(text::has_prefix(session_id, THREAD_PREFIX@) && text::has_prefix(session_id, MCP_PREFIX@)),
        !(text::has_prefix(session_id, CONN_PREFIX@) && text::has_prefix(session_id, MCP_PREFIX@)),
{
    reveal_strlit("thread:");
    reveal_strlit("conn:");
    reveal_strlit("mcp:");
    if text::has_prefix(session_id, THREAD_PREFIX@) {
        assert(session_id.subrange(0, THREAD_PREFIX@.len() as int)[0] == 't');
        assert(session_id[0] == 't');
    }
    if text::has_prefix(session_id, CONN_PREFIX@) {
        assert(session_id.subrange(0, CONN_PREFIX@.len() as int)[0] == 'c');
        assert(session_id[0] == 'c');
    }
    if text::has_prefix(session_id, MCP_PREFIX@) {
        assert(session_id.subrange(0, MCP_PREFIX@.len() as int)[0] == 'm');
        assert(session_id[0] == 'm');
    }
}

/// The thread is found again in its session identifier.
pub proof fn law_thread_round_trip(thread_id: Seq<char>)
    ensures
        text::stripped(THREAD_PREFIX@ + thread_id, THREAD_PREFIX@) == Some(thread_id),
        session_type_of(THREAD_PREFIX@ + thread_id) == SessionTypeView::Thread(thread_id),
{
    lemma_prefix_is_stripped(THREAD_PREFIX@, thread_id);
}

/// The connection is found again in its session identifier.
pub proof fn law_connection_round_trip(connection_id: u64)
    ensures
        session_type_of(CONN_PREFIX@ + text::decimal(connection_id as nat))
            == SessionTypeView::Connection(connection_id),
{
    let session_id = CONN_PREFIX@ + text::decimal(connection_id as nat);
    lemma_prefix_is_stripped(CONN_PREFIX@, text::decimal(connection_id as nat));
    law_prefixes_exclude_each_other(session_id);
    text::law_decimal_is_parsed_back(connection_id);
}

/// The MCP server is found again in its session identifier.
pub proof fn law_mcp_round_trip(server_name: Seq<char>)
    ensures
        text::stripped(MCP_PREFIX@ + server_name, MCP_PREFIX@) == Some(server_name),
        session_type_of(MCP_PREFIX@ + server_name) == SessionTypeView::Mcp(server_name),
{
    lemma_prefix_is_stripped(MCP_PREFIX@, server_name);
    law_prefixes_exclude_each_other(MCP_PREFIX@ + server_name);
}

/// Different threads have different session identifiers, and so have different MCP
/// servers and different connections.
pub proof fn law_session_ids_are_distinct(a: Seq<char>, b: Seq<char>, m: u64, n: u64)
    ensures
        THREAD_PREFIX@ + a == THREAD_PREFIX@ + b ==> a == b,
        MCP_PREFIX@ + a == MCP_PREFIX@ + b ==> a == b,
        CONN_PREFIX@ + text::decimal(m as nat) == CONN_PREFIX@ + text::decimal(n as nat) ==> m == n,
{
    law_thread_round_trip(a);
    law_thread_round_trip(b);
    law_mcp_round_trip(a);
    law_mcp_round_trip(b);
    law_connection_round_trip(m);
    law_connection_round_trip(n);
}

/// A session identifier without a known prefix is kept whole, and so is one with
/// the prefix of a connection and no number behind it.
pub proof fn law_unknown_session_id_is_kept(session_id: Seq<char>)
    ensures
        session_type_of(session_id) matches SessionTypeView::Unknown(text) ==> text == session_id,
        session_type_of(session_id) is Unknown <==> !text::has_prefix(session_id, THREAD_PREFIX@)
            && !text::has_prefix(session_id, MCP_PREFIX@) && (text::has_prefix(session_id, CONN_PREFIX@)
            ==> text::parsed_u64(session_id.skip(CONN_PREFIX@.len() as int)) is None),
{
    law_prefixes_exclude_each_other(session_id);
}

/// What a session identifier stands for is told by what stands in front of it alone: a
/// thread or an MCP server is the rest, a connection is the number that the rest spells,
/// and where the rest spells none the identifier is kept whole.
pub proof fn law_prefix_tells_the_session(session_id: Seq<char>, rest: Seq<char>, n: u64)
    ensures
        session_type_of(session_id) == SessionTypeView::Thread(rest) <==> session_id == "thread:"@
            + rest,
        session_type_of(session_id) == SessionTypeView::Mcp(rest) <==> session_id == "mcp:"@ + rest,
        session_type_of("conn:"@ + rest) == match text::parsed_u64(rest) {
            Some(number) => SessionTypeView::Connection(number),
            None => SessionTypeView::Unknown("conn:"@ + rest),
        },
        session_type_of(session_id) == SessionTypeView::Connection(n) ==> session_id == "conn:"@
            + session_id.skip(5),
        session_type_of(session_id) is Unknown ==> session_type_of(session_id)
            == SessionTypeView::Unknown(session_id),
{
    reveal_strlit("conn:");
    law_prefixes_exclude_each_other(session_id);
    law_prefixes_exclude_each_other("conn:"@ + rest);
    text::law_prefix_is_cut(session_id, THREAD_PREFIX@, rest);
    text::law_prefix_is_cut(session_id, MCP_PREFIX@, rest);
    text::law_prefix_is_cut(session_id, CONN_PREFIX@, session_id.skip(5));
    lemma_prefix_is_stripped(CONN_PREFIX@, rest);
    law_thread_round_trip(rest);
    law_mcp_round_trip(rest);
    law_prefixes_exclude_each_other(MCP_PREFIX@ + rest);
}

/// What is said of a session is said of what it holds.
pub proof fn law_session_type_is_what_it_holds(text: String, n: u64)
    ensures
        SessionType::Thread(text)@ == SessionTypeView::Thread(text@),
        SessionType::Connection(n)@ == SessionTypeView::Connection(n),
        SessionType::Mcp(text)@ == SessionTypeView::Mcp(text@),
        SessionType::Unknown(text)@ == SessionTypeView::Unknown(text@),
{
}

} // verus!
