//! Outbound requests and their wire form.
//!
//! A request names a remote operation and carries a list of positional
//! arguments. On the wire it is one MessagePack array of four items: the
//! message kind, the request identifier, the method name and the argument
//! list. The bytes themselves come from the `mpack` crate.

use vstd::prelude::*;
use vstd::utf8::*;
use mpack::Value;
use crate::outbound::{Outbound, SendError};

verus! {

/// The message kind that marks a frame as a request.
pub const REQUEST: i8 = 0;

/// The editor command that has every file that is read announced to channel
/// 1 as a `bufread` notification.
pub const BUFREAD_HOOK: &'static str =
    "au BufRead * call rpcnotify(1, \"bufread\", bufname(\"\"))";

/// One positional argument of a request.
#[derive(Debug, PartialEq, Eq)]
pub enum Argument {
    Integer(i64),
    Boolean(bool),
    Text(String),
}

/// An argument as a mathematical value: a string is the sequence of its
/// characters.
pub ghost enum ArgumentView {
    Integer(i64),
    Boolean(bool),
    Text(Seq<char>),
}

impl View for Argument {
    type V = ArgumentView;

    open spec fn view(&self) -> ArgumentView {
        match self {
            Argument::Integer(value) => ArgumentView::Integer(*value),
            Argument::Boolean(value) => ArgumentView::Boolean(*value),
            Argument::Text(text) => ArgumentView::Text(text@),
        }
    }
}

/// The views of a list of arguments, in order.
pub open spec fn arguments_view(args: Seq<Argument>) -> Seq<ArgumentView> {
    Seq::new(args.len(), |i: int| args[i]@)
}

/// Whether a string is short enough for the encoding: its UTF-8 form has at
/// most `u32::MAX` bytes.
pub open spec fn text_fits(text: Seq<char>) -> bool {
    encode_utf8(text).len() <= u32::MAX
}

/// Whether an argument can be encoded: every integer and boolean can, a
/// string if it is short enough.
pub open spec fn argument_fits(arg: ArgumentView) -> bool {
    arg matches ArgumentView::Text(text) ==> text_fits(text)
}

/// Whether a request can be encoded: the method name and every string
/// argument are short enough, and there are at most `u32::MAX` arguments.
pub open spec fn frame_fits(method: Seq<char>, args: Seq<ArgumentView>) -> bool {
    &&& text_fits(method)
    &&& args.len() <= u32::MAX
    &&& forall|i: int| 0 <= i < args.len() ==> argument_fits(#[trigger] args[i])
}

/// The bytes that `mpack::write_value` produces for the array
/// `[Int8(kind), Uint32(id), String(method), Array(args)]`, where an integer
/// argument is an `Int64`, a boolean a `Boolean` and a string a `String`.
pub uninterp spec fn frame_encoding(
    kind: i8,
    id: u32,
    method: Seq<char>,
    args: Seq<ArgumentView>,
) -> Seq<u8>;

/// The error of `mpack`'s writer. Nothing is known of a value of it.
#[verifier::external_type_specification]
#[verifier::external_body]
pub struct ExWriteError(mpack::WriteError);

/// Encodes one frame with `mpack::write_value`, writing into a byte vector.
///
/// Trusted: the call succeeds exactly when the frame fits (the only error
/// that `write_value` raises on a vector is `TooMuchData`, for a string or
/// an array of more than `u32::MAX` bytes or items), and the bytes it
/// produces depend on the four arguments alone.
#[verifier::external_body]
fn encode_frame(kind: i8, id: u32, method: &str, args: &Vec<Argument>) -> (encoded: Result<
    Vec<u8>,
    mpack::WriteError,
>)
    ensures
        encoded is Ok <==> frame_fits(method@, arguments_view(args@)),
        encoded matches Ok(bytes) ==> bytes@ == frame_encoding(
            kind,
            id,
            method@,
            arguments_view(args@),
        ),
{
    let params: Vec<Value> = args.iter().map(|arg| match arg {
        Argument::Integer(value) => Value::Int64(*value),
        Argument::Boolean(value) => Value::Boolean(*value),
        Argument::Text(text) => Value::String(text.clone()),
    }).collect();
    let frame = Value::Array(vec![
        Value::Int8(kind), Value::Uint32(id), Value::String(method.to_string()), Value::Array(params),
    ]);
    let mut bytes: Vec<u8> = Vec::new();
    mpack::write_value(&mut bytes, frame)?;
    Ok(bytes)
}

/// Encodes a request and hands it back as a frame of which nothing has been
/// written yet.
///
/// Fails with `TooLarge`, and only then, when the request does not fit the
/// encoding.
pub fn send_request(id: u32, method: &str, args: &Vec<Argument>) -> (sent: Result<
    Outbound,
    SendError,
>)
    ensures
        frame_fits(method@, arguments_view(args@)) ==> sent is Ok,
        !frame_fits(method@, arguments_view(args@)) ==> sent == Err::<Outbound, SendError>(
            SendError::TooLarge,
        ),
        sent matches Ok(out) ==> {
            &&& out.frame() == frame_encoding(REQUEST, id, method@, arguments_view(args@))
            &&& out.written() == 0
        },
{
    match encode_frame(REQUEST, id, method, args) {
        Ok(bytes) => Ok(Outbound::new(bytes)),
        Err(_) => Err(SendError::TooLarge),
    }
}

/// Hands out request identifiers: 1, 2, 3 and so on, each one once.
pub struct RequestIds {
    issued: u32,
}

impl RequestIds {
    /// The largest identifier handed out so far; 0 before the first.
    pub closed spec fn issued(self) -> nat {
        self.issued as nat
    }

    /// A generator that has handed out nothing.
    pub fn new() -> (ids: RequestIds)
        ensures
            ids.issued() == 0,
    {
        RequestIds { issued: 0 }
    }

    /// A generator that goes on after `last`: for a sender that has used the
    /// identifiers up to `last` already.
    pub fn after(last: u32) -> (ids: RequestIds)
        ensures
            ids.issued() == last,
    {
        RequestIds { issued: last }
    }

    /// Hands out the next identifier: one more than the last.
    ///
    /// Every identifier is above all that came before it, so none comes
    /// twice. After `u32::MAX` the generator is spent and answers `None`.
    pub fn allocate(&mut self) -> (id: Option<u32>)
        ensures
            old(self).issued() < u32::MAX ==> id == Some((old(self).issued() + 1) as u32)
                && final(self).issued() == old(self).issued() + 1,
            old(self).issued() >= u32::MAX ==> id is None && final(self).issued() == old(
                self,
            ).issued(),
    {
        if self.issued < u32::MAX {
            self.issued = self.issued + 1;
            Some(self.issued)
        } else {
            None
        }
    }
}

/// The arguments of the attach request: a screen of 80 columns and 24 rows,
/// with the flag set.
pub open spec fn attach_arguments() -> Seq<ArgumentView> {
    seq![ArgumentView::Integer(80), ArgumentView::Integer(24), ArgumentView::Boolean(true)]
}

/// The arguments of a command request: the command text alone.
pub open spec fn command_arguments(command: Seq<char>) -> Seq<ArgumentView> {
    seq![ArgumentView::Text(command)]
}

/// A short ASCII string fits the encoding.
proof fn lemma_ascii_fits(text: Seq<char>)
    requires
        is_ascii_chars(text),
        text.len() <= u32::MAX,
    ensures
        text_fits(text),
{
    is_ascii_chars_encode_utf8(text);
}

/// The request that attaches a user interface of 80 columns and 24 rows to
/// the editor, ready to be written.
///
/// It always fits the encoding.
pub fn nvim_attach(id: u32) -> (out: Outbound)
    ensures
        out.frame() == frame_encoding(REQUEST, id, "ui_attach"@, attach_arguments()),
        out.written() == 0,
{
    let mut args: Vec<Argument> = Vec::new();
    args.push(Argument::Integer(80));
    args.push(Argument::Integer(24));
    args.push(Argument::Boolean(true));
    proof {
        reveal_strlit("ui_attach");
        assert("ui_attach"@ =~= seq!['u', 'i', '_', 'a', 't', 't', 'a', 'c', 'h']);
        lemma_ascii_fits("ui_attach"@);
        assert(arguments_view(args@) =~= attach_arguments());
    }
    match send_request(id, "ui_attach", &args) {
        Ok(out) => out,
        Err(_) => unreached(),
    }
}

/// The request that has the editor run one command, ready to be written.
///
/// Fails with `TooLarge`, and only then, when the command's UTF-8 form is
/// longer than `u32::MAX` bytes.
pub fn nvim_execute(id: u32, command: &str) -> (sent: Result<Outbound, SendError>)
    ensures
        text_fits(command@) ==> sent is Ok,
        !text_fits(command@) ==> sent == Err::<Outbound, SendError>(SendError::TooLarge),
        sent matches Ok(out) ==> {
            &&& out.frame() == frame_encoding(
                REQUEST,
                id,
                "vim_command"@,
                command_arguments(command@),
            )
            &&& out.written() == 0
        },
{
    let mut args: Vec<Argument> = Vec::new();
    args.push(Argument::Text(command.to_owned()));
    proof {
        reveal_strlit("vim_command");
        assert("vim_command"@ =~= seq!['v', 'i', 'm', '_', 'c', 'o', 'm', 'm', 'a', 'n', 'd']);
        lemma_ascii_fits("vim_command"@);
        assert(arguments_view(args@) =~= command_arguments(command@));
        assert(command_arguments(command@)[0] == ArgumentView::Text(command@));
    }
    send_request(id, "vim_command", &args)
}

} // verus!
