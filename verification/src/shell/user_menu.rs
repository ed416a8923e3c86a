//! The menu of the user.

use vstd::prelude::*;

use crate::actions;
use crate::actions::{
    ActionDispatcher, ApiCall, ApiCallView, AppAction, AppActionView, AppEvent, BrowserAction,
    BrowserActionView, BrowserEvent, EffectView, LoginAction, LoginActionView, LoginEvent,
    PlaybackAction, PlaybackActionView, ScreenName, ScreenNameView,
};
use crate::api::cached_client::SpotifyResult;
use crate::lists;
use crate::models::{
    CurrentUser, PlaylistDescription, PlaylistDescriptionView, PlaylistSummary,
    PlaylistSummaryView,
};
use crate::state::{AppModel, LoginState};

verus! {

/// How many of the user's playlists are read.
pub const USER_PLAYLISTS: usize = 30;

/// The data and the wishes of the menu.
#[derive(Debug, PartialEq, Eq)]
pub struct UserMenuModel {
    pub app_model: AppModel,
    pub dispatcher: ActionDispatcher,
}

/// The name that is shown of the user: the one that the user chose if it is known,
/// otherwise the one that the user logged in with.
pub open spec fn shown_name(user: LoginState) -> Option<String> {
    match user.user_display_name {
        Some(name) => Some(name),
        None => user.user,
    }
}

/// The address of the user's picture, if it is known and not empty.
pub open spec fn picture_address(user: LoginState) -> Option<String> {
    match user.user_image_url {
        Some(url) if url@.len() > 0 => Some(url),
        _ => None,
    }
}

impl UserMenuModel {
    /// The menu.
    pub fn new(app_model: AppModel, dispatcher: ActionDispatcher) -> (r: Self)
        ensures
            r == (UserMenuModel { app_model, dispatcher }),
    {
        UserMenuModel { app_model, dispatcher }
    }

    /// Only the wishes changed: these were added.
    pub open spec fn wants(self, before: Self, added: Seq<EffectView>) -> bool {
        &&& self.app_model == before.app_model
        &&& self.dispatcher@ == before.dispatcher@ + added
    }

    /// The name that the user logged in with.
    pub fn username(&self) -> (r: Option<&String>)
        ensures
            match (r, self.app_model.state.logged_user.user) {
                (Some(a), Some(b)) => *a == b,
                (None, None) => true,
                _ => false,
            },
    {
        self.app_model.state.logged_user.user.as_ref()
    }

    /// The name that is shown of the user.
    pub fn display_name(&self) -> (r: Option<String>)
        ensures
            r == shown_name(self.app_model.state.logged_user),
    {
        match &self.app_model.state.logged_user.user_display_name {
            Some(name) => Some(name.clone()),
            None => self.app_model.state.logged_user.user.clone(),
        }
    }

    /// The address of the user's picture, if it is known and not empty.
    pub fn user_image_url(&self) -> (r: Option<String>)
        ensures
            r == picture_address(self.app_model.state.logged_user),
    {
        match &self.app_model.state.logged_user.user_image_url {
            Some(url) => if url.as_str().is_empty() {
                None
            } else {
                Some(url.clone())
            },
            None => None,
        }
    }

    /// Wants the user's name and picture read, if someone is logged in.
    pub fn fetch_user_details(&mut self)
        ensures
            final(self).wants(
                *old(self),
                if old(self).app_model.state.logged_user.user is Some {
                    seq![EffectView::Call(ApiCallView::GetCurrentUser)]
                } else {
                    Seq::empty()
                },
            ),
    {
        if self.username().is_some() {
            self.dispatcher.call(ApiCall::GetCurrentUser);
        } else {
            assert(self.dispatcher@ =~= old(self).dispatcher@ + Seq::<EffectView>::empty());
        }
    }

    /// What follows from the user's name and picture.
    pub fn user_details_fetched(answer: SpotifyResult<CurrentUser>) -> (r: SpotifyResult<AppAction>)
        ensures
            match (answer, r) {
                (Ok(user), Ok(action)) => action == AppAction::LoginAction(
                    LoginAction::SetUserDetails {
                        display_name: user.display_name,
                        image_url: user.image_url,
                    },
                ),
                (Err(e), Err(f)) => e == f,
                _ => false,
            },
    {
        match answer {
            Ok(user) => Ok(
                AppAction::LoginAction(
                    LoginAction::SetUserDetails {
                        display_name: user.display_name,
                        image_url: user.image_url,
                    },
                ),
            ),
            Err(e) => Err(e),
        }
    }

    /// Stops playback and wants what was kept of the user forgotten; what follows is
    /// `cache_cleared`.
    pub fn logout(&mut self)
        ensures
            final(self).wants(
                *old(self),
                seq![
                    actions::play(PlaybackActionView::Stop),
                    EffectView::Call(ApiCallView::ClearUserCache),
                ],
            ),
    {
        self.dispatcher.dispatch(AppAction::PlaybackAction(PlaybackAction::Stop));
        self.dispatcher.call(ApiCall::ClearUserCache);
        assert(self.dispatcher@ =~= old(self).dispatcher@ + seq![
            actions::play(PlaybackActionView::Stop),
            EffectView::Call(ApiCallView::ClearUserCache),
        ]);
    }

    /// What follows once what was kept of the user is forgotten, or could not be:
    /// the user is logged out.
    pub fn cache_cleared() -> (r: AppAction)
        ensures
            r == AppAction::LoginAction(LoginAction::Logout),
    {
        AppAction::LoginAction(LoginAction::Logout)
    }

    /// Wants the user's playlists read, if someone is logged in.
    pub fn fetch_user_playlists(&mut self)
        ensures
            final(self).wants(
                *old(self),
                if old(self).app_model.state.logged_user.user is Some {
                    seq![
                        EffectView::Call(
                            ApiCallView::GetSavedPlaylists { offset: 0, limit: USER_PLAYLISTS },
                        ),
                    ]
                } else {
                    Seq::empty()
                },
            ),
    {
        if self.username().is_some() {
            self.dispatcher.call(ApiCall::GetSavedPlaylists { offset: 0, limit: USER_PLAYLISTS });
        } else {
            assert(self.dispatcher@ =~= old(self).dispatcher@ + Seq::<EffectView>::empty());
        }
    }

    /// What follows from the user's playlists.
    pub fn user_playlists_fetched(
        answer: SpotifyResult<Vec<PlaylistDescription>>,
    ) -> (r: SpotifyResult<AppAction>)
        ensures
            match (answer, r) {
                (Ok(playlists), Ok(action)) => action.deep_view() == AppActionView::LoginAction(
                    LoginActionView::SetUserPlaylists(
                        playlists.deep_view().map_values(
                            |p: PlaylistDescriptionView| summary_of(p),
                        ),
                    ),
                ),
                (Err(e), Err(f)) => e == f,
                _ => false,
            },
    {
        match answer {
            Ok(playlists) => {
                let ghost whole = playlists;
                let ghost all = playlists.deep_view().map_values(
                    |p: PlaylistDescriptionView| summary_of(p),
                );
                let mut summaries: Vec<PlaylistSummary> = Vec::new();
                assert(summaries.deep_view() =~= all.take(0));
                for playlist in it: playlists.into_iter()
                    invariant
                        it.seq() == whole@,
                        all == whole.deep_view().map_values(
                            |p: PlaylistDescriptionView| summary_of(p),
                        ),
                        summaries.deep_view() == all.take(it.index()),
                {
                    let ghost before = summaries;
                    let ghost view = playlist.deep_view();
                    assert(whole.deep_view()[it.index()] == view);
                    let summary: PlaylistSummary = PlaylistSummary::from(playlist);
                    summaries.push(summary);
                    proof {
                        lists::lemma_deep_push(before, summaries, summary);
                        lists::lemma_take_push(all, it.index());
                        assert(summary.deep_view() == all[it.index()]);
                    }
                }
                proof {
                    lists::lemma_take_all(all);
                }
                Ok(AppAction::LoginAction(LoginAction::SetUserPlaylists(summaries)))
            },
            Err(e) => Err(e),
        }
    }
}

/// What is kept of a playlist in a list of names.
pub open spec fn summary_of(playlist: PlaylistDescriptionView) -> PlaylistSummaryView {
    PlaylistSummaryView { id: playlist.id, title: playlist.title }
}

/// The menu as it is shown.
#[derive(Debug, PartialEq, Eq)]
pub struct UserMenu {
    pub model: UserMenuModel,
    /// How many pages lie on top of the tabs.
    pub nav_depth: usize,
    /// Whether the button of the menu is shown.
    pub visible: bool,
    /// The name above the entry that logs out; without one there is no such entry.
    pub logout_section: Option<String>,
    /// The text of the button, from which its initials are made; without text it
    /// has an icon.
    pub avatar_text: String,
    /// The address of the picture on the button.
    pub avatar: Option<String>,
}

impl UserMenu {
    /// The button is shown only while no page lies on top of the tabs.
    pub open spec fn wf(self) -> bool {
        self.visible == (self.nav_depth == 0)
    }

    /// The menu.
    pub fn new(model: UserMenuModel) -> (r: UserMenu)
        ensures
            r.model == model,
            r.nav_depth == 0,
            r.visible,
            r.logout_section is None,
            r.avatar_text@.len() == 0,
            r.avatar is None,
            r.wf(),
    {
        UserMenu {
            model,
            nav_depth: 0,
            visible: true,
            logout_section: None,
            avatar_text: String::new(),
            avatar: None,
        }
    }

    /// Opens the settings.
    pub fn open_settings(&mut self)
        ensures
            final(self).model.wants(
                old(self).model,
                seq![
                    actions::browse(BrowserActionView::NavigationPush(ScreenNameView::Settings)),
                ],
            ),
            *final(self) == (UserMenu { model: final(self).model, ..*old(self) }),
    {
        self.model.dispatcher.dispatch(
            AppAction::BrowserAction(BrowserAction::NavigationPush(ScreenName::Settings)),
        );
    }

    /// The name of the user is shown as it is known, and their picture is asked for:
    /// `load` is its address. Without an address there is no picture; with one, the
    /// picture that is there stays until the new one has been loaded.
    pub open spec fn user_shown(self, before: Self, load: Option<String>) -> bool {
        let user = before.model.app_model.state.logged_user;
        &&& self.logout_section == shown_name(user)
        &&& self.avatar_text@ == (match shown_name(user) {
            Some(name) => name@,
            None => Seq::empty(),
        })
        &&& load == picture_address(user)
        &&& self.avatar == (if load is Some {
            before.avatar
        } else {
            None
        })
    }

    /// Shows the name of the user. The address of their picture is handed back if
    /// there is one to be loaded.
    pub fn update(&mut self) -> (r: Option<String>)
        ensures
            final(self).model == old(self).model,
            final(self).nav_depth == old(self).nav_depth,
            final(self).visible == old(self).visible,
            final(self).user_shown(*old(self), r),
    {
        self.logout_section = self.model.display_name();
        self.avatar_text = match self.model.display_name() {
            Some(name) => name,
            None => String::new(),
        };
        let load: Option<String> = self.model.user_image_url();
        if load.is_none() {
            self.avatar = None;
        }
        load
    }

    /// A picture has been tried: it is shown if it could be loaded, and otherwise
    /// what was there stays.
    pub fn avatar_tried(&mut self, url: String, found: bool)
        ensures
            *final(self) == (UserMenu {
                avatar: if found {
                    Some(url)
                } else {
                    old(self).avatar
                },
                ..*old(self)
            }),
    {
        if found {
            self.avatar = Some(url);
        }
    }

    /// What an event does to the menu. The address of a picture that is to be loaded
    /// is handed back.
    pub fn on_event(&mut self, event: &AppEvent) -> (r: Option<String>)
        requires
            old(self).wf(),
            event matches AppEvent::BrowserEvent(BrowserEvent::NavigationPushed(_))
                ==> old(self).nav_depth < usize::MAX,
        ensures
            final(self).wf(),
            match event {
                AppEvent::LoginEvent(LoginEvent::LoginCompleted) | AppEvent::Started => {
                    &&& final(self).user_shown(*old(self), r)
                    &&& final(self).nav_depth == old(self).nav_depth
                    &&& final(self).model.wants(
                        old(self).model,
                        if old(self).model.app_model.state.logged_user.user is Some {
                            seq![
                                EffectView::Call(
                                    ApiCallView::GetSavedPlaylists {
                                        offset: 0,
                                        limit: USER_PLAYLISTS,
                                    },
                                ),
                                EffectView::Call(ApiCallView::GetCurrentUser),
                            ]
                        } else {
                            Seq::empty()
                        },
                    )
                },
                AppEvent::LoginEvent(LoginEvent::UserDetailsLoaded) => {
                    &&& final(self).user_shown(*old(self), r)
                    &&& final(self).model == old(self).model
                    &&& final(self).nav_depth == old(self).nav_depth
                },
                AppEvent::BrowserEvent(BrowserEvent::NavigationPushed(_)) => r is None && *final(self) == (
                UserMenu { nav_depth: (old(self).nav_depth + 1) as usize, visible: false, ..*old(
                    self,
                ) }),
                AppEvent::BrowserEvent(BrowserEvent::NavigationPopped) => r is None && *final(self) == (
                UserMenu {
                    nav_depth: if old(self).nav_depth == 0 {
                        0
                    } else {
                        (old(self).nav_depth - 1) as usize
                    },
                    visible: old(self).nav_depth <= 1,
                    ..*old(self)
                }),
                AppEvent::BrowserEvent(BrowserEvent::NavigationPoppedTo(_)) => r is None && *final(self) == (
                UserMenu { nav_depth: 0, visible: true, ..*old(self) }),
                _ => r is None && *final(self) == *old(self),
            },
    {
        match event {
            AppEvent::LoginEvent(LoginEvent::LoginCompleted) | AppEvent::Started => {
                let load = self.update();
                self.model.fetch_user_playlists();
                self.model.fetch_user_details();
                proof {
                    let before = old(self).model.dispatcher@;
                    if old(self).model.app_model.state.logged_user.user is Some {
                        assert(self.model.dispatcher@ =~= before + seq![
                            EffectView::Call(
                                ApiCallView::GetSavedPlaylists { offset: 0, limit: USER_PLAYLISTS },
                            ),
                            EffectView::Call(ApiCallView::GetCurrentUser),
                        ]);
                    } else {
                        assert(self.model.dispatcher@ =~= before + Seq::<EffectView>::empty());
                    }
                }
                load
            },
            AppEvent::LoginEvent(LoginEvent::UserDetailsLoaded) => self.update(),
            AppEvent::BrowserEvent(BrowserEvent::NavigationPushed(_)) => {
                self.nav_depth = self.nav_depth + 1;
                self.visible = false;
                None
            },
            AppEvent::BrowserEvent(BrowserEvent::NavigationPopped) => {
                self.nav_depth = self.nav_depth.saturating_sub(1);
                if self.nav_depth == 0 {
                    self.visible = true;
                }
                None
            },
            AppEvent::BrowserEvent(BrowserEvent::NavigationPoppedTo(_)) => {
                self.nav_depth = 0;
                self.visible = true;
                None
            },
            _ => None,
        }
    }
}

// ── Laws ───────────────────────────────────────────────────────────────────

/// A user is shown by the name that they chose if it is known, and else by the one
/// that they logged in with.
pub proof fn law_chosen_name_goes_first(user: LoginState)
    ensures
        user.user_display_name is Some ==> shown_name(user) == user.user_display_name,
        user.user_display_name is None ==> shown_name(user) == user.user,
{
}

/// The picture of the user is asked for at the address that is known; an empty one
/// counts as none, and then no picture stays.
pub proof fn law_known_picture_is_asked_for(
    before: UserMenu,
    after: UserMenu,
    load: Option<String>,
)
    requires
        after.user_shown(before, load),
    ensures
        ({
            let user = before.model.app_model.state.logged_user;
            &&& after.logout_section == shown_name(user)
            &&& user.user_image_url matches Some(url) ==> (url@.len() > 0 ==> load == Some(url)
                && after.avatar == before.avatar)
            &&& user.user_image_url is None || user.user_image_url->0@.len() == 0 ==> load is None
                && after.avatar is None
            &&& shown_name(user) matches Some(name) ==> after.avatar_text@ == name@
            &&& shown_name(user) is None ==> after.avatar_text@.len() == 0
        }),
{
}

/// What is kept of a playlist in a list of names is its own id and title.
pub proof fn law_summaries_name_their_playlist(playlist: PlaylistDescriptionView)
    ensures
        summary_of(playlist).id == playlist.id,
        summary_of(playlist).title == playlist.title,
{
}

/// An address that is empty is none.
pub proof fn law_empty_address_is_none(user: LoginState)
    ensures
        user.user_image_url is None ==> picture_address(user) is None,
        user.user_image_url matches Some(url) ==> url@.len() == 0 ==> picture_address(user)
            is None,
        user.user_image_url matches Some(url) ==> url@.len() > 0 ==> picture_address(user) == Some(
            url,
        ),
        USER_PLAYLISTS == 30,
{
}

} // verus!
