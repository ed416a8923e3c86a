//! Which pages lie on top of each other.

use vstd::prelude::*;

use crate::actions;
use crate::actions::{
    ActionDispatcher, AppAction, AppActionView, AppEvent, BrowserAction, BrowserActionView,
    BrowserEvent, EffectView, ScreenName, ScreenNameView,
};
use crate::lists;
use crate::text;
use crate::text::gettext;

verus! {

/// A tab at the bottom.
#[derive(Clone, Copy, Debug, PartialEq, Eq, Structural)]
pub enum Tab {
    Home,
    Search,
    Library,
}

impl Tab {
    /// The name by which the tab is found.
    pub fn name(self) -> (r: &'static str)
        ensures
            r@ == (match self {
                Tab::Home => "home"@,
                Tab::Search => "search"@,
                Tab::Library => "library"@,
            }),
    {
        match self {
            Tab::Home => "home",
            Tab::Search => "search",
            Tab::Library => "library",
        }
    }

    /// The English title of the tab.
    pub fn msgid(self) -> (r: &'static str)
        ensures
            r@ == (match self {
                Tab::Home => "Home"@,
                Tab::Search => "Search"@,
                Tab::Library => "Library"@,
            }),
            text::no_nul(r@),
    {
        proof {
            reveal_strlit("Home");
            reveal_strlit("Search");
            reveal_strlit("Library");
        }
        match self {
            Tab::Home => "Home",
            Tab::Search => "Search",
            Tab::Library => "Library",
        }
    }

    /// The title of the tab. That of the library is not translated; any other is
    /// a translation of `msgid`.
    pub fn title(self) -> (r: String)
        ensures
            match self {
                Tab::Home => text::translates(r@, "Home"@),
                Tab::Search => text::translates(r@, "Search"@),
                Tab::Library => r@ == "Library"@,
            },
    {
        match self {
            Tab::Library => "Library".to_string(),
            _ => gettext(self.msgid()),
        }
    }

    /// The icon of the tab.
    pub fn icon(self) -> (r: &'static str)
        ensures
            r@ == (match self {
                Tab::Home => "go-home-symbolic"@,
                Tab::Search => "system-search-symbolic"@,
                Tab::Library => "library-music-symbolic"@,
            }),
    {
        match self {
            Tab::Home => "go-home-symbolic",
            Tab::Search => "system-search-symbolic",
            Tab::Library => "library-music-symbolic",
        }
    }
}

/// The tabs from left to right.
pub fn tabs() -> (r: Vec<Tab>)
    ensures
        r@ == seq![Tab::Home, Tab::Search, Tab::Library],
{
    vec![Tab::Home, Tab::Search, Tab::Library]
}

/// A part of the library that the library's own tab shows.
#[derive(Clone, Copy, Debug, PartialEq, Eq, Structural)]
pub enum PaneTab {
    Playlists,
    Albums,
    Artists,
    Liked,
}

impl PaneTab {
    /// The name by which the part is found.
    pub fn name(self) -> (r: &'static str)
        ensures
            r@ == (match self {
                PaneTab::Playlists => "playlists"@,
                PaneTab::Albums => "albums"@,
                PaneTab::Artists => "artists"@,
                PaneTab::Liked => "liked"@,
            }),
    {
        match self {
            PaneTab::Playlists => "playlists",
            PaneTab::Albums => "albums",
            PaneTab::Artists => "artists",
            PaneTab::Liked => "liked",
        }
    }

    /// The message id of the title of the part.
    pub fn msgid(self) -> (r: &'static str)
        ensures
            r@ == (match self {
                PaneTab::Playlists => "Playlists"@,
                PaneTab::Albums => "Albums"@,
                PaneTab::Artists => "Artists"@,
                PaneTab::Liked => "Liked Songs"@,
            }),
            text::no_nul(r@),
    {
        proof {
            reveal_strlit("Playlists");
            reveal_strlit("Albums");
            reveal_strlit("Artists");
            reveal_strlit("Liked Songs");
        }
        match self {
            PaneTab::Playlists => "Playlists",
            PaneTab::Albums => "Albums",
            PaneTab::Artists => "Artists",
            PaneTab::Liked => "Liked Songs",
        }
    }

    /// The icon of the part.
    pub fn icon(self) -> (r: &'static str)
        ensures
            r@ == (match self {
                PaneTab::Playlists => "view-app-grid-symbolic"@,
                PaneTab::Albums => "library-music-symbolic"@,
                PaneTab::Artists => "avatar-default-symbolic"@,
                PaneTab::Liked => "starred-symbolic"@,
            }),
    {
        match self {
            PaneTab::Playlists => "view-app-grid-symbolic",
            PaneTab::Albums => "library-music-symbolic",
            PaneTab::Artists => "avatar-default-symbolic",
            PaneTab::Liked => "starred-symbolic",
        }
    }
}

/// The pages on top of the tabs.
#[derive(Debug, PartialEq, Eq)]
pub struct Navigation {
    pub dispatcher: ActionDispatcher,
    pub tabs_shown: bool,
    pub visible_tab: Tab,
    /// The pages, the topmost last.
    pub children: Vec<ScreenName>,
    /// How many pages are going away without the user having asked for it here: as
    /// many of the reports that a page is gone are not passed on.
    pub programmatic_pop_count: u32,
}

/// What is to be done to what is on the screen.
#[derive(Debug, PartialEq, Eq)]
pub enum NavigationTask {
    /// Put the tabs there, with the first one shown.
    ShowTabs,
    /// Put a page on top.
    PushPage(ScreenName),
    /// Take the topmost page away.
    PopPage,
    /// Take all pages away.
    PopAll,
    /// Show a tab.
    SelectTab(Tab),
    Nothing,
}

/// The contents of a `NavigationTask`.
pub enum NavigationTaskView {
    ShowTabs,
    PushPage(ScreenNameView),
    PopPage,
    PopAll,
    SelectTab(Tab),
    Nothing,
}

impl DeepView for NavigationTask {
    type V = NavigationTaskView;

    open spec fn deep_view(&self) -> NavigationTaskView {
        match self {
            NavigationTask::ShowTabs => NavigationTaskView::ShowTabs,
            NavigationTask::PushPage(name) => NavigationTaskView::PushPage(name.deep_view()),
            NavigationTask::PopPage => NavigationTaskView::PopPage,
            NavigationTask::PopAll => NavigationTaskView::PopAll,
            NavigationTask::SelectTab(tab) => NavigationTaskView::SelectTab(*tab),
            NavigationTask::Nothing => NavigationTaskView::Nothing,
        }
    }
}

/// The screen is a page that is put on top; the tabs are not.
pub open spec fn is_page(name: ScreenName) -> bool {
    !(name is Home) && !(name is Search)
}

/// Whether a report that a page is gone is passed on.
pub open spec fn is_passed_on(count: nat) -> bool {
    count == 0
}

/// What a report that a page is gone leaves of the count.
pub open spec fn after_report(count: nat) -> nat {
    if count == 0 {
        0
    } else {
        (count - 1) as nat
    }
}

impl Navigation {
    /// No tabs and no pages yet.
    pub fn new(dispatcher: ActionDispatcher) -> (r: Navigation)
        ensures
            r.dispatcher == dispatcher,
            !r.tabs_shown,
            r.visible_tab == Tab::Home,
            r.children@.len() == 0,
            r.programmatic_pop_count == 0,
    {
        Navigation {
            dispatcher,
            tabs_shown: false,
            visible_tab: Tab::Home,
            children: Vec::new(),
            programmatic_pop_count: 0,
        }
    }

    /// A page is gone. If the user took it away, the rest of the program is told;
    /// if it was taken away from here, nobody is.
    pub fn on_popped(&mut self)
        ensures
            final(self).children == old(self).children,
            final(self).tabs_shown == old(self).tabs_shown,
            final(self).visible_tab == old(self).visible_tab,
            final(self).programmatic_pop_count == after_report(
                old(self).programmatic_pop_count as nat,
            ),
            if is_passed_on(old(self).programmatic_pop_count as nat) {
                final(self).dispatcher@ == old(self).dispatcher@ + seq![
                    actions::browse(BrowserActionView::NavigationPop),
                ]
            } else {
                final(self).dispatcher == old(self).dispatcher
            },
    {
        if self.programmatic_pop_count > 0 {
            self.programmatic_pop_count = self.programmatic_pop_count - 1;
        } else {
            self.dispatcher.dispatch(AppAction::BrowserAction(BrowserAction::NavigationPop));
        }
    }

    /// A tab was chosen: all pages are to go away.
    pub fn on_tab_selected(&mut self, tab: Tab)
        ensures
            *final(self) == (Navigation {
                dispatcher: final(self).dispatcher,
                visible_tab: tab,
                ..*old(self)
            }),
            final(self).dispatcher@ == old(self).dispatcher@ + seq![
                actions::browse(BrowserActionView::NavigationPopTo(ScreenNameView::Home)),
            ],
    {
        self.visible_tab = tab;
        self.dispatcher.dispatch(
            AppAction::BrowserAction(BrowserAction::NavigationPopTo(ScreenName::Home)),
        );
    }

    /// Puts the tabs there, once.
    pub fn setup_tabs(&mut self) -> (r: NavigationTask)
        ensures
            if old(self).tabs_shown {
                r == NavigationTask::Nothing && *final(self) == *old(self)
            } else {
                r == NavigationTask::ShowTabs && *final(self) == (Navigation {
                    tabs_shown: true,
                    visible_tab: Tab::Home,
                    ..*old(self)
                })
            },
    {
        if self.tabs_shown {
            return NavigationTask::Nothing;
        }
        self.tabs_shown = true;
        self.visible_tab = Tab::Home;
        NavigationTask::ShowTabs
    }

    /// Puts a page on top; a tab is not put on top.
    pub fn push_screen(&mut self, name: &ScreenName) -> (r: NavigationTask)
        ensures
            *final(self) == (Navigation { children: final(self).children, ..*old(self) }),
            if is_page(*name) {
                &&& r.deep_view() == NavigationTaskView::PushPage(name.deep_view())
                &&& final(self).children.deep_view() == old(self).children.deep_view().push(
                    name.deep_view(),
                )
            } else {
                &&& r == NavigationTask::Nothing
                &&& final(self).children == old(self).children
            },
    {
        match name {
            ScreenName::Home | ScreenName::Search => NavigationTask::Nothing,
            _ => {
                let ghost before = self.children;
                let page: ScreenName = name.clone();
                self.children.push(page);
                proof {
                    lists::lemma_deep_push(before, self.children, page);
                }
                NavigationTask::PushPage(name.clone())
            },
        }
    }

    /// Takes the topmost page away.
    pub fn pop(&mut self) -> (r: NavigationTask)
        requires
            old(self).programmatic_pop_count < u32::MAX,
        ensures
            r == NavigationTask::PopPage,
            *final(self) == (Navigation {
                children: final(self).children,
                programmatic_pop_count: (old(self).programmatic_pop_count + 1) as u32,
                ..*old(self)
            }),
            final(self).children@ == (if old(self).children@.len() > 0 {
                old(self).children@.drop_last()
            } else {
                old(self).children@
            }),
    {
        self.programmatic_pop_count = self.programmatic_pop_count + 1;
        let _ = self.children.pop();
        NavigationTask::PopPage
    }

    /// Takes all pages away.
    pub fn pop_to_root(&mut self) -> (r: NavigationTask)
        requires
            old(self).programmatic_pop_count + old(self).children@.len() <= u32::MAX,
        ensures
            r == NavigationTask::PopAll,
            *final(self) == (Navigation {
                children: final(self).children,
                programmatic_pop_count: (old(self).programmatic_pop_count + old(
                    self,
                ).children@.len()) as u32,
                ..*old(self)
            }),
            final(self).children@.len() == 0,
    {
        let pages: u32 = self.children.len() as u32;
        self.programmatic_pop_count = self.programmatic_pop_count + pages;
        self.children.clear();
        NavigationTask::PopAll
    }

    /// What an event does to the pages.
    pub fn on_event(&mut self, event: &AppEvent) -> (r: NavigationTask)
        requires
            old(self).programmatic_pop_count + old(self).children@.len() < u32::MAX,
        ensures
            match event {
                AppEvent::Started => if old(self).tabs_shown {
                    r == NavigationTask::Nothing && *final(self) == *old(self)
                } else {
                    r == NavigationTask::ShowTabs && *final(self) == (Navigation {
                        tabs_shown: true,
                        visible_tab: Tab::Home,
                        ..*old(self)
                    })
                },
                AppEvent::BrowserEvent(BrowserEvent::NavigationPushed(name)) => {
                    &&& *final(self) == (Navigation { children: final(self).children, ..*old(self) })
                    &&& if is_page(*name) {
                        &&& r.deep_view() == NavigationTaskView::PushPage(name.deep_view())
                        &&& final(self).children.deep_view() == old(
                            self,
                        ).children.deep_view().push(name.deep_view())
                    } else {
                        r == NavigationTask::Nothing && *final(self) == *old(self)
                    }
                },
                AppEvent::BrowserEvent(BrowserEvent::NavigationPopped) => {
                    &&& r == NavigationTask::PopPage
                    &&& *final(self) == (Navigation {
                        children: final(self).children,
                        programmatic_pop_count: (old(self).programmatic_pop_count + 1) as u32,
                        ..*old(self)
                    })
                    &&& final(self).children@ == (if old(self).children@.len() > 0 {
                        old(self).children@.drop_last()
                    } else {
                        old(self).children@
                    })
                },
                AppEvent::BrowserEvent(BrowserEvent::NavigationPoppedTo(_)) => {
                    &&& r == NavigationTask::PopAll
                    &&& *final(self) == (Navigation {
                        children: final(self).children,
                        programmatic_pop_count: (old(self).programmatic_pop_count + old(
                            self,
                        ).children@.len()) as u32,
                        ..*old(self)
                    })
                    &&& final(self).children@.len() == 0
                },
                AppEvent::SearchTabShown => {
                    &&& r == NavigationTask::SelectTab(Tab::Search)
                    &&& *final(self) == (Navigation { visible_tab: Tab::Search, ..*old(self) })
                },
                _ => r == NavigationTask::Nothing && *final(self) == *old(self),
            },
    {
        match event {
            AppEvent::Started => self.setup_tabs(),
            AppEvent::BrowserEvent(BrowserEvent::NavigationPushed(name)) => self.push_screen(name),
            AppEvent::BrowserEvent(BrowserEvent::NavigationPopped) => self.pop(),
            AppEvent::BrowserEvent(BrowserEvent::NavigationPoppedTo(_)) => self.pop_to_root(),
            AppEvent::SearchTabShown => {
                self.visible_tab = Tab::Search;
                NavigationTask::SelectTab(Tab::Search)
            },
            _ => NavigationTask::Nothing,
        }
    }
}

/// What so many reports that a page is gone leave of the count, and how many of
/// them are passed on.
pub open spec fn after_reports(count: nat, reports: nat) -> (nat, nat)
    decreases reports,
{
    if reports == 0 {
        (count, 0)
    } else {
        let (left, passed) = after_reports(count, (reports - 1) as nat);
        (after_report(left), passed + if is_passed_on(left) { 1nat } else { 0nat })
    }
}

/// As many reports as the count says are not passed on.
proof fn lemma_reports_are_silent(count: nat, reports: nat)
    requires
        reports <= count,
    ensures
        after_reports(count, reports) == ((count - reports) as nat, 0nat),
    decreases reports,
{
    if reports > 0 {
        lemma_reports_are_silent(count, (reports - 1) as nat);
    }
}

/// When all pages are taken away, one report comes for each, and none of them is
/// passed on: nothing is taken away twice. The count is then what it was before.
pub proof fn law_taking_all_away_is_silent(count: nat, pages: nat)
    ensures
        after_reports(count + pages, pages) == (count, 0nat),
{
    lemma_reports_are_silent(count + pages, pages);
}

/// Every page that the user takes away is reported, once.
pub proof fn law_user_gestures_are_reported(reports: nat)
    ensures
        after_reports(0, reports) == (0nat, reports),
    decreases reports,
{
    if reports > 0 {
        law_user_gestures_are_reported((reports - 1) as nat);
    }
}

/// The tabs are never put on top of each other; every other screen is a page.
pub proof fn law_tabs_are_no_pages(id: String, name: String)
    ensures
        !is_page(ScreenName::Home),
        !is_page(ScreenName::Search),
        is_page(ScreenName::AlbumDetails(id)),
        is_page(ScreenName::Artist(id)),
        is_page(ScreenName::PlaylistDetails(id)),
        is_page(ScreenName::User(id)),
        is_page(ScreenName::SavedTracks),
        is_page(ScreenName::Settings),
        is_page((ScreenName::Radio { seed_id: id, seed_name: name })),
{
}

/// The view of a `NavigationTask` is of the same kind and holds the same parts.
pub proof fn law_view_of_navigation_task(value: NavigationTask)
    ensures
        value is ShowTabs ==> value.deep_view() == NavigationTaskView::ShowTabs,
        value matches NavigationTask::PushPage(name) ==> value.deep_view() == NavigationTaskView::PushPage(name.deep_view()),
        value is PopPage ==> value.deep_view() == NavigationTaskView::PopPage,
        value is PopAll ==> value.deep_view() == NavigationTaskView::PopAll,
        value matches NavigationTask::SelectTab(tab) ==> value.deep_view() == NavigationTaskView::SelectTab(tab),
        value is Nothing ==> value.deep_view() == NavigationTaskView::Nothing,
{
}

/// A report is passed on exactly if no page was taken away by the program; otherwise it
/// is counted off.
pub proof fn law_own_pops_are_counted_off(count: nat)
    ensures
        is_passed_on(count) <==> count == 0,
        count == 0 ==> after_report(count) == 0,
        count > 0 ==> after_report(count) + 1 == count,
{
}

} // verus!
