//! Files: reading, writing and the other things that commands do to them,
//! each as an effect whose failure is a fault of the command.

use crate::host::{
    ask, bind, done, failed, owned, ran, Effect, EffectView, ExchangeView, Fault, FaultKind,
    FileOp, Halt, Ran, Replay, ReplyView,
};
use vstd::prelude::*;

verus! {

/// A failure without text.
pub open spec fn bare_failure<T>(kind: FaultKind, at: int) -> Ran<T> {
    failed(kind, Seq::empty(), at)
}

/// A file is read.
pub open spec fn file_read(log: Seq<ExchangeView>, at: int, path: Seq<char>, kind: FaultKind) -> Ran<
    Seq<char>,
> {
    bind(
        ask(log, at, EffectView::ReadFile(path)),
        |r: ReplyView, at1: int|
            if r.ok {
                done(r.text, at1)
            } else {
                failed(kind, r.detail, at1)
            },
    )
}

/// A file is written.
pub open spec fn file_written(
    log: Seq<ExchangeView>,
    at: int,
    path: Seq<char>,
    content: Seq<char>,
) -> Ran<()> {
    bind(
        ask(log, at, EffectView::WriteFile(path, content)),
        |r: ReplyView, at1: int|
            if r.ok {
                done((), at1)
            } else {
                failed(FaultKind::FileWrite, r.detail, at1)
            },
    )
}

/// Something is done to a file.
pub open spec fn file_done(
    log: Seq<ExchangeView>,
    at: int,
    op: FileOp,
    first: Seq<char>,
    second: Seq<char>,
    kind: FaultKind,
) -> Ran<()> {
    bind(
        ask(log, at, EffectView::File(op, first, second)),
        |r: ReplyView, at1: int|
            if r.ok {
                done((), at1)
            } else {
                failed(kind, r.detail, at1)
            },
    )
}

/// A file is removed if it is there.
pub open spec fn removed_if_there(log: Seq<ExchangeView>, at: int, path: Seq<char>) -> Ran<()> {
    bind(
        ask(log, at, EffectView::PathExists(path)),
        |there: ReplyView, at1: int|
            if there.ok {
                file_done(log, at1, FileOp::Remove, path, Seq::empty(), FaultKind::FileRemove)
            } else {
                done((), at1)
            },
    )
}

/// The view of a result over a text.
pub open spec fn ran_string(r: Result<String, Halt>, at: int) -> Ran<Seq<char>> {
    Ran {
        out: match r {
            Ok(s) => Ok(s@),
            Err(h) => Err(h@),
        },
        at,
    }
}

/// Reads a file; a failure is one of `kind`.
pub fn read_file(host: &mut Replay, path: &str, kind: FaultKind) -> (r: Result<String, Halt>)
    ensures
        final(host).seen() == old(host).seen(),
        ran_string(r, final(host).pos()) == file_read(
            old(host).seen(),
            old(host).pos(),
            path@,
            kind,
        ),
{
    let reply = host.perform(Effect::ReadFile(owned(path)))?;
    if reply.ok {
        Ok(reply.text)
    } else {
        Err(Halt::Fail(Fault { kind, detail: reply.detail, rolled_back: false }))
    }
}

/// Replaces a file's content.
pub fn write_file(host: &mut Replay, path: &str, content: String) -> (r: Result<(), Halt>)
    ensures
        final(host).seen() == old(host).seen(),
        ran(r, final(host).pos()) == file_written(
            old(host).seen(),
            old(host).pos(),
            path@,
            content@,
        ),
{
    let reply = host.perform(Effect::WriteFile(owned(path), content))?;
    if reply.ok {
        Ok(())
    } else {
        Err(
            Halt::Fail(
                Fault { kind: FaultKind::FileWrite, detail: reply.detail, rolled_back: false },
            ),
        )
    }
}

/// Does something to a file; a failure is one of `kind`.
pub fn file_op(host: &mut Replay, op: FileOp, first: &str, second: &str, kind: FaultKind) -> (r:
    Result<(), Halt>)
    ensures
        final(host).seen() == old(host).seen(),
        ran(r, final(host).pos()) == file_done(
            old(host).seen(),
            old(host).pos(),
            op,
            first@,
            second@,
            kind,
        ),
{
    let reply = host.perform(Effect::File(op, owned(first), owned(second)))?;
    if reply.ok {
        Ok(())
    } else {
        Err(Halt::Fail(Fault { kind, detail: reply.detail, rolled_back: false }))
    }
}

/// Removes a file if it is there.
pub fn remove_if_there(host: &mut Replay, path: &str) -> (r: Result<(), Halt>)
    ensures
        final(host).seen() == old(host).seen(),
        ran(r, final(host).pos()) == removed_if_there(old(host).seen(), old(host).pos(), path@),
{
    let there = host.perform(Effect::PathExists(owned(path)))?;
    if there.ok {
        let none = String::new();
        file_op(host, FileOp::Remove, path, none.as_str(), FaultKind::FileRemove)
    } else {
        Ok(())
    }
}

/// Whether a path exists.
pub open spec fn is_there(log: Seq<ExchangeView>, at: int, path: Seq<char>) -> Ran<bool> {
    bind(ask(log, at, EffectView::PathExists(path)), |r: ReplyView, at1: int| done(r.ok, at1))
}

/// Asks whether a path exists.
pub fn path_exists(host: &mut Replay, path: &str) -> (r: Result<bool, Halt>)
    ensures
        final(host).seen() == old(host).seen(),
        ran(r, final(host).pos()) == is_there(old(host).seen(), old(host).pos(), path@),
{
    let reply = host.perform(Effect::PathExists(owned(path)))?;
    Ok(reply.ok)
}

/// The directory that holds a path is created.
pub open spec fn parent_made(log: Seq<ExchangeView>, at: int, path: Seq<char>) -> Ran<()> {
    bind(
        ask(log, at, EffectView::CreateParent(path)),
        |r: ReplyView, at1: int|
            if r.ok {
                done((), at1)
            } else {
                failed(FaultKind::DirCreate, r.detail, at1)
            },
    )
}

/// Creates the directory that holds a path.
pub fn make_parent(host: &mut Replay, path: &str) -> (r: Result<(), Halt>)
    ensures
        final(host).seen() == old(host).seen(),
        ran(r, final(host).pos()) == parent_made(old(host).seen(), old(host).pos(), path@),
{
    let reply = host.perform(Effect::CreateParent(owned(path)))?;
    if reply.ok {
        Ok(())
    } else {
        Err(
            Halt::Fail(
                Fault { kind: FaultKind::DirCreate, detail: reply.detail, rolled_back: false },
            ),
        )
    }
}

/// The clock's reading.
pub open spec fn clock(log: Seq<ExchangeView>, at: int) -> Ran<u64> {
    bind(ask(log, at, EffectView::Clock), |r: ReplyView, at1: int| done(r.stamp, at1))
}

/// Reads the clock.
pub fn now_unix(host: &mut Replay) -> (r: Result<u64, Halt>)
    ensures
        final(host).seen() == old(host).seen(),
        ran(r, final(host).pos()) == clock(old(host).seen(), old(host).pos()),
{
    let reply = host.perform(Effect::Clock)?;
    Ok(reply.stamp)
}

} // verus!
