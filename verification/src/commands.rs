//! The text of the bot's command replies.

use vstd::prelude::*;

use crate::database::CommandUsageSummary;
use crate::duration::{duration_text, format_duration};
use crate::epic::EpicSession;
use crate::services::epic::EpicImage;
use crate::text::{decimal, push_decimal, push_signed_decimal, push_str, signed_decimal};

verus! {

/// The reply to `/ping`.
pub open spec fn ping_text(user_id: u64) -> Seq<char> {
    "P-pong... <@"@ + decimal(user_id as nat) + ">! 🐾✨"@
}

/// Builds the reply to `/ping`, which mentions the user.
pub fn ping_message(user_id: u64) -> (message: String)
    ensures
        message@ == ping_text(user_id),
{
    let mut message = String::new();
    push_str(&mut message, "P-pong... <@");
    push_decimal(&mut message, user_id);
    push_str(&mut message, ">! 🐾✨");
    assert(message@ =~= ping_text(user_id));
    message
}

/// The reply to `/about`.
pub open spec fn about_text(version: Seq<char>) -> Seq<char> {
    "S-sou a Seris v"@ + version
        + "\nConheço estes comandos: ping, clear, epic, apod, anime, manga, about, uptime, stats"@
}

/// Builds the reply to `/about` for the given version.
pub fn about_message(version: &str) -> (message: String)
    ensures
        message@ == about_text(version@),
{
    let mut message = String::new();
    push_str(&mut message, "S-sou a Seris v");
    push_str(&mut message, version);
    push_str(&mut message, "\nConheço estes comandos: ping, clear, epic, apod, anime, manga, about, uptime, stats");
    assert(message@ =~= about_text(version@));
    message
}

/// The reply to `/uptime`.
pub open spec fn uptime_text(seconds: u64) -> Seq<char> {
    "Estou ativa há "@ + duration_text(seconds as nat) + "..."@
}

/// Builds the reply to `/uptime` after `seconds` of activity.
pub fn uptime_message(seconds: u64) -> (message: String)
    ensures
        message@ == uptime_text(seconds),
{
    let mut message = String::new();
    push_str(&mut message, "Estou ativa há ");
    let uptime = format_duration(seconds);
    push_str(&mut message, uptime.as_str());
    push_str(&mut message, "...");
    assert(message@ =~= uptime_text(seconds));
    message
}

/// The reply to `/stats`.
pub open spec fn stats_text(summary: CommandUsageSummary) -> Seq<char> {
    match summary.favorite_command {
        Some(favorite) => "Pelo que vi, você usou "@ + signed_decimal(summary.total_uses as int) + " comandos em "@
            + signed_decimal(summary.distinct_commands as int) + " comandos diferentes. Favorito: `/"@ + favorite@
            + "` ("@ + signed_decimal(summary.favorite_count as int) + " vezes)..."@,
        None => "Ainda não tenho comandos salvos para você..."@,
    }
}

/// Builds the reply to `/stats` from a usage summary.
pub fn stats_message(summary: &CommandUsageSummary) -> (message: String)
    ensures
        message@ == stats_text(*summary),
{
    let mut message = String::new();
    match &summary.favorite_command {
        Some(favorite) => {
            push_str(&mut message, "Pelo que vi, você usou ");
            push_signed_decimal(&mut message, summary.total_uses);
            push_str(&mut message, " comandos em ");
            push_signed_decimal(&mut message, summary.distinct_commands);
            push_str(&mut message, " comandos diferentes. Favorito: `/");
            push_str(&mut message, favorite.as_str());
            push_str(&mut message, "` (");
            push_signed_decimal(&mut message, summary.favorite_count);
            push_str(&mut message, " vezes)...");
        },
        None => {
            push_str(&mut message, "Ainda não tenho comandos salvos para você...");
        },
    }
    assert(message@ =~= stats_text(*summary));
    message
}

/// The note left after `/clear` deleted messages at `timestamp` (Unix seconds).
pub open spec fn cleared_text(timestamp: i64) -> Seq<char> {
    "Houve uma limpeza de mensagens — <t:"@ + signed_decimal(timestamp as int) + ">."@
}

/// Builds the note left after `/clear`.
pub fn cleared_message(timestamp: i64) -> (message: String)
    ensures
        message@ == cleared_text(timestamp),
{
    let mut message = String::new();
    push_str(&mut message, "Houve uma limpeza de mensagens — <t:");
    push_signed_decimal(&mut message, timestamp);
    push_str(&mut message, ">.");
    assert(message@ =~= cleared_text(timestamp));
    message
}

/// How many of the most recent messages `/clear` deletes at most.
pub const CLEAR_MESSAGE_LIMIT: usize = 40;

/// Why `/clear` deletes nothing.
#[derive(Clone, Copy, Debug, PartialEq, Eq, Structural)]
pub enum ClearRefusal {
    /// The command was used outside a server.
    NotInGuild,
    /// The server could not be looked up, so its owner is unknown.
    PermissionsUnknown,
    /// The author does not own the server.
    OwnerOnly,
}

/// The reply to a refused `/clear`.
pub open spec fn clear_refusal_text(refusal: ClearRefusal) -> Seq<char> {
    match refusal {
        ClearRefusal::NotInGuild => "Sinto muito — isso só pode ser executado em um servidor"@,
        ClearRefusal::PermissionsUnknown => "Sinto muito. Não consegui confirmar as permissões do servidor"@,
        ClearRefusal::OwnerOnly => "Sinto muito. Só o dono do servidor pode apagar mensagens"@,
    }
}

impl ClearRefusal {
    /// The reply to this refusal.
    pub fn text(&self) -> (text: &'static str)
        ensures
            text@ == clear_refusal_text(*self),
    {
        match self {
            ClearRefusal::NotInGuild => "Sinto muito — isso só pode ser executado em um servidor",
            ClearRefusal::PermissionsUnknown => "Sinto muito. Não consegui confirmar as permissões do servidor",
            ClearRefusal::OwnerOnly => "Sinto muito. Só o dono do servidor pode apagar mensagens",
        }
    }
}

/// The next step of `/clear`.
#[derive(Clone, Copy, Debug, PartialEq, Eq, Structural)]
pub enum ClearStep {
    /// Answer with the refusal and stop.
    Refuse(ClearRefusal),
    /// Look up the server with this id to learn its owner.
    LookUpGuild(u64),
    /// Fetch at most this many of the channel's latest messages and delete them.
    DeleteRecent(usize),
}

/// The first step of `/clear`: only a command used in a server goes on, to
/// the lookup of that server.
pub open spec fn clear_start_rule(guild_id: Option<u64>) -> ClearStep {
    match guild_id {
        Some(id) => ClearStep::LookUpGuild(id),
        None => ClearStep::Refuse(ClearRefusal::NotInGuild),
    }
}

/// The step of `/clear` once the server lookup answered with its owner
/// (`None` when the lookup failed): only the owner may delete, and then at
/// most `CLEAR_MESSAGE_LIMIT` messages.
pub open spec fn clear_permission_rule(guild_owner: Option<u64>, author: u64) -> ClearStep {
    match guild_owner {
        None => ClearStep::Refuse(ClearRefusal::PermissionsUnknown),
        Some(owner) => if owner == author {
            ClearStep::DeleteRecent(CLEAR_MESSAGE_LIMIT)
        } else {
            ClearStep::Refuse(ClearRefusal::OwnerOnly)
        },
    }
}

/// Decides how `/clear` starts for a command used in `guild_id` (`None`
/// outside a server).
pub fn clear_start(guild_id: Option<u64>) -> (step: ClearStep)
    ensures
        step == clear_start_rule(guild_id),
{
    match guild_id {
        Some(id) => ClearStep::LookUpGuild(id),
        None => ClearStep::Refuse(ClearRefusal::NotInGuild),
    }
}

/// Decides whether `author` may clear the channel, given the server's owner
/// as the lookup answered it (`None` when the lookup failed).
pub fn clear_permission(guild_owner: Option<u64>, author: u64) -> (step: ClearStep)
    ensures
        step == clear_permission_rule(guild_owner, author),
{
    match guild_owner {
        None => ClearStep::Refuse(ClearRefusal::PermissionsUnknown),
        Some(owner) => if owner == author {
            ClearStep::DeleteRecent(CLEAR_MESSAGE_LIMIT)
        } else {
            ClearStep::Refuse(ClearRefusal::OwnerOnly)
        },
    }
}

/// The ids of the messages that loaded, in order; those that failed to load
/// (`None`) are dropped.
pub open spec fn kept_ids(fetched: Seq<Option<u64>>) -> Seq<u64>
    decreases fetched.len(),
{
    if fetched.len() == 0 {
        Seq::empty()
    } else {
        let rest = kept_ids(fetched.drop_last());
        match fetched.last() {
            Some(id) => rest.push(id),
            None => rest,
        }
    }
}

/// Whether a fetched message loaded.
pub open spec fn loaded(message: Option<u64>) -> bool {
    message is Some
}

/// The id of a loaded message.
pub open spec fn loaded_id(message: Option<u64>) -> u64 {
    match message {
        Some(id) => id,
        None => 0,
    }
}

/// `/clear` deletes every message that loaded and nothing else, in the order
/// fetched: the ids are the loaded entries with their ids taken out, so there
/// are as many as loaded messages, and each loaded id is among them.
pub proof fn lemma_every_loaded_message_is_deleted(fetched: Seq<Option<u64>>)
    ensures
        kept_ids(fetched) == fetched.filter(|m: Option<u64>| loaded(m)).map_values(|m: Option<u64>| loaded_id(m)),
        kept_ids(fetched).len() == fetched.filter(|m: Option<u64>| loaded(m)).len(),
        forall|k: int| 0 <= k < fetched.len() && #[trigger] fetched[k] is Some ==> kept_ids(fetched).contains(
            fetched[k]->0,
        ),
    decreases fetched.len(),
{
    reveal_with_fuel(Seq::filter, 1);
    if fetched.len() > 0 {
        let init = fetched.drop_last();
        lemma_every_loaded_message_is_deleted(init);
        let pred = |m: Option<u64>| loaded(m);
        let f = |m: Option<u64>| loaded_id(m);
        assert(fetched.filter(pred) == if pred(fetched.last()) {
            init.filter(pred).push(fetched.last())
        } else {
            init.filter(pred)
        });
        if pred(fetched.last()) {
            assert(init.filter(pred).push(fetched.last()).map_values(f) =~= init.filter(pred).map_values(f).push(
                f(fetched.last()),
            ));
        }
        assert forall|k: int| 0 <= k < fetched.len() && #[trigger] fetched[k] is Some implies kept_ids(
            fetched,
        ).contains(fetched[k]->0) by {
            if k < fetched.len() - 1 {
                assert(init[k] == fetched[k]);
                let j = choose|j: int| 0 <= j < kept_ids(init).len() && kept_ids(init)[j] == init[k]->0;
                if fetched.last() is Some {
                    assert(kept_ids(fetched)[j] == kept_ids(init)[j]);
                } else {
                    assert(kept_ids(fetched)[j] == kept_ids(init)[j]);
                }
            } else {
                assert(kept_ids(fetched)[kept_ids(fetched).len() - 1] == fetched[k]->0);
            }
        }
    } else {
        assert(fetched.filter(|m: Option<u64>| loaded(m)).map_values(|m: Option<u64>| loaded_id(m)) =~= Seq::<
            u64,
        >::empty());
    }
}

/// Returns the ids `/clear` deletes from the messages it fetched: those that
/// loaded, in order.
pub fn deletable_ids(fetched: &Vec<Option<u64>>) -> (ids: Vec<u64>)
    ensures
        ids@ == kept_ids(fetched@),
{
    let mut ids: Vec<u64> = Vec::new();
    let mut i: usize = 0;
    while i < fetched.len()
        invariant
            i <= fetched.len(),
            ids@ == kept_ids(fetched@.take(i as int)),
        decreases fetched.len() - i,
    {
        assert(fetched@.take(i as int + 1).drop_last() =~= fetched@.take(i as int));
        match fetched[i] {
            Some(id) => ids.push(id),
            None => {},
        }
        i = i + 1;
    }
    assert(fetched@.take(fetched@.len() as int) =~= fetched@);
    ids
}

/// Whether `text` is a date that chrono reads with the format `%Y-%m-%d`.
pub uninterp spec fn iso_date_accepted(text: Seq<char>) -> bool;

/// `chrono::NaiveDate::parse_from_str(text, "%Y-%m-%d")`, reduced to whether
/// it succeeded. Which texts chrono accepts is named, not stated: its parser
/// takes pages to describe.
#[verifier::external_body]
fn parse_iso_date(text: &str) -> (ok: bool)
    ensures
        ok == iso_date_accepted(text@),
{
    chrono::NaiveDate::parse_from_str(text, "%Y-%m-%d").is_ok()
}

/// Why `/epic` shows no gallery.
#[derive(Clone, Copy, Debug, PartialEq, Eq, Structural)]
pub enum EpicRefusal {
    /// The date is not written `YYYY-MM-DD`.
    InvalidDate,
    /// NASA has no images for the date.
    NoImages,
    /// The images could not be fetched.
    TryLater,
}

/// The reply to a refused `/epic`.
pub open spec fn epic_refusal_text(refusal: EpicRefusal) -> Seq<char> {
    match refusal {
        EpicRefusal::InvalidDate => "D-desculpe... a data precisa estar no formato YYYY-MM-DD."@,
        EpicRefusal::NoImages => "E-eu não encontrei imagens EPIC para essa data."@,
        EpicRefusal::TryLater => "D-desculpe... tente novamente mais tarde."@,
    }
}

impl EpicRefusal {
    /// The reply to this refusal.
    pub fn text(&self) -> (text: &'static str)
        ensures
            text@ == epic_refusal_text(*self),
    {
        match self {
            EpicRefusal::InvalidDate => "D-desculpe... a data precisa estar no formato YYYY-MM-DD.",
            EpicRefusal::NoImages => "E-eu não encontrei imagens EPIC para essa data.",
            EpicRefusal::TryLater => "D-desculpe... tente novamente mais tarde.",
        }
    }
}

/// The first step of `/epic`.
pub enum EpicRequest {
    /// Answer with the refusal and stop.
    Refuse(EpicRefusal),
    /// Fetch the images of this date (the latest day when `None`).
    Fetch(Option<String>),
}

/// Decides the first step of `/epic` for the optional `date`: a date that
/// chrono does not read as `YYYY-MM-DD` is refused, any other is fetched as given.
pub fn epic_request(date: Option<String>) -> (request: EpicRequest)
    ensures
        match date {
            None => request matches EpicRequest::Fetch(None),
            Some(text) => if iso_date_accepted(text@) {
                request matches EpicRequest::Fetch(Some(fetched)) && fetched@ == text@
            } else {
                request == EpicRequest::Refuse(EpicRefusal::InvalidDate)
            },
        },
{
    match date {
        None => EpicRequest::Fetch(None),
        Some(text) => {
            if parse_iso_date(text.as_str()) {
                EpicRequest::Fetch(Some(text))
            } else {
                EpicRequest::Refuse(EpicRefusal::InvalidDate)
            }
        },
    }
}

/// What `/epic` shows once the images were fetched.
pub enum EpicReply {
    /// Answer with the refusal.
    Refuse(EpicRefusal),
    /// Show the gallery of this session, opened on its first page.
    Show(EpicSession),
}

/// Decides what `/epic` shows for the fetched images (`None` when the fetch
/// failed): a failure asks to try later, no images says so, and otherwise a
/// gallery owned by `owner_id` opens on the first image.
pub fn epic_reply(owner_id: u64, kind: String, fetched: Option<Vec<EpicImage>>) -> (reply: EpicReply)
    ensures
        match fetched {
            None => reply == EpicReply::Refuse(EpicRefusal::TryLater),
            Some(images) => if images@.len() == 0 {
                reply == EpicReply::Refuse(EpicRefusal::NoImages)
            } else {
                &&& reply matches EpicReply::Show(session)
                &&& session.wf()
                &&& session.owner() == owner_id
                &&& session.kind_text() == kind@
                &&& session.pages() == images@
                &&& session.page_index() == 0
            },
        },
{
    match fetched {
        None => EpicReply::Refuse(EpicRefusal::TryLater),
        Some(images) => {
            if images.len() == 0 {
                EpicReply::Refuse(EpicRefusal::NoImages)
            } else {
                EpicReply::Show(EpicSession::new(owner_id, kind, images))
            }
        },
    }
}

} // verus!
