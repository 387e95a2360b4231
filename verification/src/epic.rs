//! EPIC gallery sessions: paging through a day of Earth images with buttons.

use dashmap::DashMap;
use vstd::prelude::*;

use crate::embeds::epic::{epic, epic_footer_text, epic_title_text};
use crate::embeds::{EmbedContent, EPIC_COLOR};
use crate::services::epic::EpicImage;
use crate::text::{owned, same_text};

verus! {

/// EPIC navigation actions.
#[derive(Clone, Copy, Debug, PartialEq, Eq, Structural)]
pub enum EpicAction {
    /// Jump to the first page.
    First,
    /// Go back one page.
    Prev,
    /// Advance one page.
    Next,
    /// Jump to the final page.
    Last,
}

/// The last page index of a gallery of `pages` pages (0 when it is empty).
pub open spec fn last_index(pages: nat) -> nat {
    if pages > 0 { (pages - 1) as nat } else { 0 }
}

/// The page shown after `action` on page `index` of `pages` pages: moves
/// saturate at the first and the last page.
pub open spec fn navigated(index: nat, pages: nat, action: EpicAction) -> nat {
    match action {
        EpicAction::First => 0,
        EpicAction::Prev => if index > 0 { (index - 1) as nat } else { 0 },
        EpicAction::Next => if index + 1 < last_index(pages) { index + 1 } else { last_index(pages) },
        EpicAction::Last => last_index(pages),
    }
}

/// Whether a page index fits a gallery of `pages` pages.
pub open spec fn index_fits(index: nat, pages: nat) -> bool {
    if pages > 0 { index < pages } else { index == 0 }
}

/// A live EPIC gallery session tied to a single Discord message.
pub struct EpicSession {
    owner_id: u64,
    kind: String,
    images: Vec<EpicImage>,
    current_index: usize,
}

impl EpicSession {
    /// The user who opened the gallery.
    pub closed spec fn owner(&self) -> u64 {
        self.owner_id
    }

    /// The kind of imagery shown.
    pub closed spec fn kind_text(&self) -> Seq<char> {
        self.kind@
    }

    /// The images of the gallery, one per page.
    pub closed spec fn pages(&self) -> Seq<EpicImage> {
        self.images@
    }

    /// The page shown, counted from 0.
    pub closed spec fn page_index(&self) -> nat {
        self.current_index as nat
    }

    /// The session's invariant: the page shown is one of its pages.
    pub open spec fn wf(&self) -> bool {
        index_fits(self.page_index(), self.pages().len())
    }

    /// Every session keeps its invariant.
    #[verifier::type_invariant]
    spec fn session_invariant(self) -> bool {
        self.wf()
    }

    /// Creates a new gallery session showing the first page.
    pub fn new(owner_id: u64, kind: String, images: Vec<EpicImage>) -> (session: Self)
        ensures
            session.wf(),
            session.owner() == owner_id,
            session.kind_text() == kind@,
            session.pages() == images@,
            session.page_index() == 0,
    {
        EpicSession { owner_id, kind, images, current_index: 0 }
    }

    /// The user who opened the gallery.
    pub fn owner_id(&self) -> (id: u64)
        ensures
            id == self.owner(),
    {
        self.owner_id
    }

    /// Returns the current image.
    pub fn current_image(&self) -> (image: &EpicImage)
        requires
            self.pages().len() > 0,
        ensures
            *image == self.pages()[self.page_index() as int],
    {
        proof {
            use_type_invariant(self);
        }
        &self.images[self.current_index]
    }

    /// Returns the current zero-based page index.
    pub fn current_index(&self) -> (index: usize)
        ensures
            index == self.page_index(),
    {
        self.current_index
    }

    /// Returns the total number of pages.
    pub fn total_pages(&self) -> (total: usize)
        ensures
            total == self.pages().len(),
    {
        self.images.len()
    }

    /// Returns the active kind label.
    pub fn kind(&self) -> (kind: &str)
        ensures
            kind@ == self.kind_text(),
    {
        self.kind.as_str()
    }

    /// Applies a navigation action to the session; nothing but the page shown changes.
    pub fn navigate(&mut self, action: EpicAction)
        ensures
            final(self).wf(),
            final(self).page_index() == navigated(old(self).page_index(), old(self).pages().len(), action),
            final(self).owner() == old(self).owner(),
            final(self).kind_text() == old(self).kind_text(),
            final(self).pages() == old(self).pages(),
    {
        proof {
            use_type_invariant(&*self);
        }
        let last = if self.images.len() > 0 { self.images.len() - 1 } else { 0 };
        match action {
            EpicAction::First => self.current_index = 0,
            EpicAction::Prev => {
                self.current_index = if self.current_index > 0 { self.current_index - 1 } else { 0 };
            },
            EpicAction::Next => {
                self.current_index = if self.current_index + 1 < last { self.current_index + 1 } else { last };
            },
            EpicAction::Last => {
                self.current_index = last;
            },
        }
    }

    /// Builds the navigation buttons for the current page.
    pub fn components(&self) -> (buttons: Vec<NavButton>)
        ensures
            buttons_for(buttons@, self.page_index(), self.pages().len()),
    {
        proof {
            use_type_invariant(self);
        }
        let is_first = self.current_index == 0;
        assert(self.current_index < self.images.len() || self.images.len() == 0);
        let is_last = self.current_index + 1 >= self.images.len();
        let mut buttons = Vec::new();
        buttons.push(NavButton { custom_id: owned("epic:first"), label: owned("Primeira"), disabled: is_first });
        buttons.push(NavButton { custom_id: owned("epic:prev"), label: owned("Anterior"), disabled: is_first });
        buttons.push(NavButton { custom_id: owned("epic:next"), label: owned("Próxima"), disabled: is_last });
        buttons.push(NavButton { custom_id: owned("epic:last"), label: owned("Última"), disabled: is_last });
        buttons
    }

    /// Builds the embed of the current page.
    pub fn embed(&self) -> (embed: EmbedContent)
        requires
            self.pages().len() > 0,
        ensures
            shows_page(embed, self.pages()[self.page_index() as int], self.page_index(), self.pages().len(), self.kind_text()),
    {
        proof {
            use_type_invariant(self);
        }
        epic(self.current_image(), self.current_index, self.images.len(), self.kind.as_str())
    }
}

/// Whether `embed` shows `image` as page `page` of `total` of an EPIC gallery of `kind`.
pub open spec fn shows_page(embed: EmbedContent, image: EpicImage, page: nat, total: nat, kind: Seq<char>) -> bool {
    &&& embed.title@ == epic_title_text(kind)
    &&& embed.url matches Some(url) && url@ == image.url@
    &&& embed.description@ == image.caption@
    &&& embed.image matches Some(url) && url@ == image.url@
    &&& embed.footer matches Some(footer) && footer@ == epic_footer_text(page, total, image)
    &&& embed.fields@.len() == 0
    &&& embed.color == EPIC_COLOR
}

/// A gallery navigation button.
pub struct NavButton {
    /// Identifier the click reports back.
    pub custom_id: String,
    /// Text on the button.
    pub label: String,
    /// Whether the button is greyed out.
    pub disabled: bool,
}

/// Whether `button` has the identifier `id`, the label `label` and the state `disabled`.
pub open spec fn button_is(button: NavButton, id: Seq<char>, label: Seq<char>, disabled: bool) -> bool {
    button.custom_id@ == id && button.label@ == label && button.disabled == disabled
}

/// The four navigation buttons of page `index` of `pages` pages: first and
/// previous are off on the first page, next and last on the last one.
pub open spec fn buttons_for(buttons: Seq<NavButton>, index: nat, pages: nat) -> bool {
    &&& buttons.len() == 4
    &&& button_is(buttons[0], "epic:first"@, "Primeira"@, index == 0)
    &&& button_is(buttons[1], "epic:prev"@, "Anterior"@, index == 0)
    &&& button_is(buttons[2], "epic:next"@, "Próxima"@, index + 1 >= pages)
    &&& button_is(buttons[3], "epic:last"@, "Última"@, index + 1 >= pages)
}

/// The action a button identifier names: `epic:` followed by `first`, `prev`,
/// `next` or `last`.
pub open spec fn action_named(custom_id: Seq<char>) -> Option<EpicAction> {
    if custom_id == "epic:first"@ {
        Some(EpicAction::First)
    } else if custom_id == "epic:prev"@ {
        Some(EpicAction::Prev)
    } else if custom_id == "epic:next"@ {
        Some(EpicAction::Next)
    } else if custom_id == "epic:last"@ {
        Some(EpicAction::Last)
    } else {
        None
    }
}

/// Reads the navigation action of a button identifier.
pub fn parse_action(custom_id: &str) -> (action: Option<EpicAction>)
    ensures
        action == action_named(custom_id@),
{
    if same_text(custom_id, "epic:first") {
        Some(EpicAction::First)
    } else if same_text(custom_id, "epic:prev") {
        Some(EpicAction::Prev)
    } else if same_text(custom_id, "epic:next") {
        Some(EpicAction::Next)
    } else if same_text(custom_id, "epic:last") {
        Some(EpicAction::Last)
    } else {
        None
    }
}

/// Navigation keeps the page shown within the gallery.
pub proof fn lemma_navigation_stays_in_range(index: nat, pages: nat, action: EpicAction)
    requires
        index_fits(index, pages),
    ensures
        index_fits(navigated(index, pages, action), pages),
{
}

/// Going back undoes going forward, except on the last page.
pub proof fn lemma_prev_undoes_next(index: nat, pages: nat)
    requires
        index + 1 < pages,
    ensures
        navigated(navigated(index, pages, EpicAction::Next), pages, EpicAction::Prev) == index,
{
}

/// Going forward undoes going back, except on the first page.
pub proof fn lemma_next_undoes_prev(index: nat, pages: nat)
    requires
        0 < index < pages,
    ensures
        navigated(navigated(index, pages, EpicAction::Prev), pages, EpicAction::Next) == index,
{
}

/// Jumping to the first or the last page lands there whatever page was shown,
/// and doing it again changes nothing.
pub proof fn lemma_jumps_are_idempotent(index: nat, pages: nat)
    ensures
        navigated(index, pages, EpicAction::First) == 0,
        navigated(index, pages, EpicAction::Last) == last_index(pages),
        navigated(navigated(index, pages, EpicAction::First), pages, EpicAction::First) == 0,
        navigated(navigated(index, pages, EpicAction::Last), pages, EpicAction::Last) == last_index(pages),
{
}

/// On the last page, going forward stays there; on the first, going back does.
pub proof fn lemma_moves_saturate(pages: nat)
    requires
        pages > 0,
    ensures
        navigated(last_index(pages), pages, EpicAction::Next) == last_index(pages),
        navigated(0, pages, EpicAction::Prev) == 0,
{
}

} // verus!

verus! {

/// A table from message id to the gallery session that message shows.
pub type SessionTable = DashMap<u64, EpicSession>;

/// The sessions a gallery table holds, by message id.
pub uninterp spec fn gallery_entries(table: SessionTable) -> Map<u64, EpicSession>;

/// The table that holds no session.
pub open spec fn no_galleries() -> Map<u64, EpicSession> {
    Map::empty()
}

/// `DashMap::new`: the new table holds no session.
#[verifier::external_body]
fn new_session_table() -> (created: SessionTable)
    ensures
        gallery_entries(created) == no_galleries(),
{
    DashMap::new()
}

/// `DashMap::insert`: stores `session` under `message_id`, replacing any
/// earlier session, which it returns.
#[verifier::external_body]
fn session_store(table: &mut SessionTable, message_id: u64, session: EpicSession) -> (previous: Option<EpicSession>)
    ensures
        gallery_entries(*final(table)) == gallery_entries(*old(table)).insert(message_id, session),
        previous == (if gallery_entries(*old(table)).contains_key(message_id) {
            Some(gallery_entries(*old(table))[message_id])
        } else {
            None
        }),
{
    table.insert(message_id, session)
}

/// `DashMap::remove`: takes the session stored under `message_id` out of the table.
#[verifier::external_body]
fn session_take(table: &mut SessionTable, message_id: u64) -> (taken: Option<EpicSession>)
    ensures
        gallery_entries(*final(table)) == gallery_entries(*old(table)).remove(message_id),
        taken == (if gallery_entries(*old(table)).contains_key(message_id) {
            Some(gallery_entries(*old(table))[message_id])
        } else {
            None
        }),
{
    match table.remove(&message_id) {
        Some((_, session)) => Some(session),
        None => None,
    }
}

/// What a button click on a gallery message is answered.
pub enum ClickOutcome {
    /// The button is not a gallery button: nothing to answer.
    Ignored,
    /// No gallery is known for the message.
    Missing,
    /// Someone other than the gallery's owner clicked.
    Forbidden,
    /// The gallery moved; the message shows this page and these buttons.
    Updated { embed: EmbedContent, buttons: Vec<NavButton> },
}

/// The reply to a click on a gallery that is no longer known.
pub const MISSING_GALLERY_REPLY: &'static str = "E-eu perdi essa galeria... tente abrir o comando de novo.";

/// The reply to a click by someone other than the gallery's owner.
pub const FORBIDDEN_GALLERY_REPLY: &'static str = "D-desculpe... só quem abriu o comando pode navegar.";

/// Whether every session a gallery table holds is well formed and has a page.
pub open spec fn galleries_wf(entries: Map<u64, EpicSession>) -> bool {
    forall|id: u64| #[trigger] entries.contains_key(id) ==> entries[id].wf() && entries[id].pages().len() > 0
}

/// The live gallery sessions, by the id of the message that shows them.
pub struct GallerySessions {
    table: SessionTable,
}

impl View for GallerySessions {
    type V = Map<u64, EpicSession>;

    closed spec fn view(&self) -> Map<u64, EpicSession> {
        gallery_entries(self.table)
    }
}

impl GallerySessions {
    /// Every gallery held is well formed and has a page.
    #[verifier::type_invariant]
    spec fn galleries_invariant(self) -> bool {
        galleries_wf(self@)
    }

    /// Creates a table without sessions.
    pub fn new() -> (sessions: Self)
        ensures
            sessions@ == no_galleries(),
            galleries_wf(sessions@),
    {
        GallerySessions { table: new_session_table() }
    }

    /// Remembers `session` as the gallery shown by message `message_id`.
    pub fn open(&mut self, message_id: u64, session: EpicSession)
        requires
            session.pages().len() > 0,
        ensures
            final(self)@ == old(self)@.insert(message_id, session),
            galleries_wf(final(self)@),
    {
        proof {
            use_type_invariant(&*self);
            use_type_invariant(&session);
        }
        let mut table = new_session_table();
        std::mem::swap(&mut table, &mut self.table);
        session_store(&mut table, message_id, session);
        self.table = table;
    }

    /// Handles a click on button `custom_id` of message `message_id` by user `user_id`.
    ///
    /// A click that is not a gallery action is ignored; a click on an unknown
    /// gallery, or by someone other than its owner, changes nothing; the
    /// owner's click moves the gallery and shows its new page.
    pub fn handle_click(&mut self, message_id: u64, user_id: u64, custom_id: &str) -> (outcome: ClickOutcome)
        ensures
            galleries_wf(final(self)@),
            action_named(custom_id@) is None ==> outcome is Ignored && final(self)@ == old(self)@,
            action_named(custom_id@) is Some && !old(self)@.contains_key(message_id) ==> outcome is Missing
                && final(self)@ == old(self)@,
            action_named(custom_id@) is Some && old(self)@.contains_key(message_id) && old(self)@[message_id].owner()
                != user_id ==> outcome is Forbidden && final(self)@ == old(self)@,
            action_named(custom_id@) is Some && old(self)@.contains_key(message_id)
                && old(self)@[message_id].owner() == user_id ==> {
                let action = action_named(custom_id@).unwrap();
                let before = old(self)@[message_id];
                let after = final(self)@[message_id];
                &&& final(self)@ == old(self)@.insert(message_id, after)
                &&& after.owner() == before.owner()
                &&& after.kind_text() == before.kind_text()
                &&& after.pages() == before.pages()
                &&& after.page_index() == navigated(before.page_index(), before.pages().len(), action)
                &&& outcome matches ClickOutcome::Updated { embed, buttons } && shows_page(
                    embed,
                    after.pages()[after.page_index() as int],
                    after.page_index(),
                    after.pages().len(),
                    after.kind_text(),
                ) && buttons_for(buttons@, after.page_index(), after.pages().len())
            },
    {
        proof {
            use_type_invariant(&*self);
        }
        let action = match parse_action(custom_id) {
            Some(action) => action,
            None => return ClickOutcome::Ignored,
        };
        let mut table = new_session_table();
        std::mem::swap(&mut table, &mut self.table);
        let outcome = match session_take(&mut table, message_id) {
            None => {
                assert(gallery_entries(table) =~= old(self)@);
                ClickOutcome::Missing
            },
            Some(mut session) => {
                if session.owner_id() != user_id {
                    session_store(&mut table, message_id, session);
                    assert(gallery_entries(table) =~= old(self)@);
                    ClickOutcome::Forbidden
                } else {
                    session.navigate(action);
                    let embed = session.embed();
                    let buttons = session.components();
                    session_store(&mut table, message_id, session);
                    ClickOutcome::Updated { embed, buttons }
                }
            },
        };
        self.table = table;
        outcome
    }
}

} // verus!
