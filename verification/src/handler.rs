//! The event handler: what to do about one message, and what to do once the
//! reply has been handed to the transport.

use crate::composer::{compose, joined};
use crate::matcher::{
    find_links, has_known_host, mentions_known_host, regex_captures, regex_compiles,
    PatternCompileError, LINK_PATTERN,
};
use crate::rewriter::{rewrite_all, rewritten, rewritten_each};
use vstd::prelude::*;

verus! {

/// A message as it arrives: its text and the channel it was posted in.
#[derive(Debug, Clone, PartialEq, Eq)]
pub struct InboundMessage {
    pub content: String,
    pub channel_id: u64,
}

/// A reply to be posted: the channel and the text.
#[derive(Debug, Clone, PartialEq, Eq)]
pub struct OutboundPayload {
    pub channel_id: u64,
    pub text: String,
}

/// The transport could not deliver a reply.
#[derive(Debug, Clone, PartialEq, Eq)]
pub struct SendFailure {
    /// What the transport reported.
    pub detail: String,
}

/// What can go wrong while one message is handled. Neither stops the handling
/// of any other message.
#[derive(Debug, Clone, PartialEq, Eq)]
pub enum Failure {
    PatternCompile(PatternCompileError),
    Send(SendFailure),
}

/// What the caller is to do next.
#[derive(Debug, Clone, PartialEq, Eq)]
pub enum Action {
    /// The handling of this message is over.
    Nothing,
    /// Post this reply, once, and come back with the outcome.
    Send(OutboundPayload),
    /// Record this failure; the handling of this message is over.
    Report(Failure),
}

/// The text of the reply to a message in which `links` were found: each link
/// rewritten, in the order found, one per line.
pub open spec fn reply_text(links: Seq<Seq<char>>) -> Seq<char> {
    joined(rewritten_each(links))
}

/// One link is answered with its rewriting and nothing else: no newline
/// before it, none behind it.
pub proof fn law_one_link_one_line(link: Seq<char>)
    ensures
        reply_text(seq![link]) == rewritten(link),
{
}

/// One more link at the end of a message adds one line at the end of the
/// reply: a newline and the rewriting of that link. What stood before it in
/// the reply stays, so the lines come in the order of the links, one for each.
pub proof fn law_reply_follows_links(links: Seq<Seq<char>>, link: Seq<char>)
    requires
        links.len() > 0,
    ensures
        reply_text(links.push(link)) == reply_text(links) + seq!['\n'] + rewritten(link),
{
    assert(rewritten_each(links.push(link)).drop_last() =~= rewritten_each(links));
}

/// The step that follows the search: a reply with the rewritten links for the
/// channel the message came from, or the report that the pattern failed.
///
/// An empty list of links gives a reply with an empty text.
pub fn reply_to_links(channel_id: u64, found: Result<Vec<String>, PatternCompileError>) -> (action:
    Action)
    ensures
        match found {
            Ok(links) => action matches Action::Send(reply) && reply.channel_id == channel_id
                && reply.text@ == reply_text(links.deep_view()),
            Err(err) => action == Action::Report(Failure::PatternCompile(err)),
        },
{
    match found {
        Ok(links) => {
            let urls = rewrite_all(&links);
            match compose(&urls) {
                Some(text) => Action::Send(OutboundPayload { channel_id, text }),
                None => Action::Nothing,
            }
        },
        Err(err) => Action::Report(Failure::PatternCompile(err)),
    }
}

/// Handles one message. A message that names neither host is passed over
/// without a search. Any other is searched for links and answered in its own
/// channel, unless the pattern cannot be built: then the failure is reported
/// and nothing is sent. Which of the two it is depends on the pattern, not on
/// the message.
pub fn handle_message(message: &InboundMessage) -> (action: Action)
    ensures
        !has_known_host(message.content@) ==> action is Nothing,
        has_known_host(message.content@) && !regex_compiles(LINK_PATTERN@) ==> action matches
            Action::Report(Failure::PatternCompile(_)),
        has_known_host(message.content@) && regex_compiles(LINK_PATTERN@) ==> ({
            &&& action matches Action::Send(reply)
            &&& reply.channel_id == message.channel_id
            &&& reply.text@ == reply_text(regex_captures(LINK_PATTERN@, message.content@))
        }),
{
    if !mentions_known_host(message.content.as_str()) {
        return Action::Nothing;
    }
    reply_to_links(message.channel_id, find_links(message.content.as_str()))
}

/// The step that follows a send. Whatever the outcome, nothing more is sent for
/// this message: a failure is reported, not tried again.
pub fn after_send(outcome: Result<(), SendFailure>) -> (action: Action)
    ensures
        match outcome {
            Ok(_) => action is Nothing,
            Err(failure) => action == Action::Report(Failure::Send(failure)),
        },
{
    match outcome {
        Ok(_) => Action::Nothing,
        Err(failure) => Action::Report(Failure::Send(failure)),
    }
}

} // verus!
