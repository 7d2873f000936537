use vstd::prelude::*;
use crate::pagination::PageSession;
use crate::registry::CommandList;
use crate::response::{CommandReturn, Embed};

verus! {

/// How the dispatcher answers a deferred interaction.
pub enum Reply {
    /// No edit is made.
    Silent,
    /// Edit the response to hold this text.
    Text(String),
    /// Edit the response to hold this embed.
    Embed(Embed),
    /// Edit the response to hold the session's current page, then hand the
    /// session its navigation events.
    Paged(PageSession),
}

/// What the dispatcher does with a command name: run the handler registered
/// under it, or answer at once.
pub enum Resolution<'a, H> {
    Run(&'a H),
    Answer(Reply),
}

/// Looks `name` up. A registered name runs its handler; an unknown one is
/// answered with an empty text, and is no error.
pub fn resolve<'a, H>(list: &'a CommandList<H>, name: &str) -> (r: Resolution<'a, H>)
    ensures
        r is Run <==> list.has(name@),
        r matches Resolution::Run(h) ==> forall|i: int|
            0 <= i < list.names().len() && list.names()[i] == name@ ==> *h == list.handlers()[i],
        !list.has(name@) ==> (r matches Resolution::Answer(Reply::Text(s)) && s@.len() == 0),
{
    match list.lookup(name) {
        Some(h) => Resolution::Run(h),
        None => Resolution::Answer(Reply::Text(String::new())),
    }
}

/// Maps a command's result to the edit that renders it. Multi-page results
/// start a session at their first page.
pub fn reply_for(ret: CommandReturn) -> (r: Reply)
    ensures
        ret is Empty ==> r is Silent,
        ret matches CommandReturn::Text(s) ==> r == Reply::Text(s),
        ret matches CommandReturn::SingleEmbed(e) ==> r == Reply::Embed(e),
        ret matches CommandReturn::EmbedPages(p) ==> (r matches Reply::Paged(s) && s.wf()
            && s.pages() == p@ && s.cursor() == 0 && s.is_open() && s.shown() == p@[0]),
{
    match ret {
        CommandReturn::Empty => Reply::Silent,
        CommandReturn::Text(s) => Reply::Text(s),
        CommandReturn::SingleEmbed(e) => Reply::Embed(e),
        CommandReturn::EmbedPages(p) => Reply::Paged(PageSession::start(p)),
    }
}

} // verus!
