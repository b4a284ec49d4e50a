//! Messages that the pages send to the shell, and the work that the shell
//! does in answer: loading a page, running a script, saving the settings.
use vstd::prelude::*;
use crate::settings::{SettingsUpdate, SettingsUpdateView};

verus! {

/// A message posted by a page through `window.ipc.postMessage`, decoded.
pub struct IpcMsg {
    pub cmd: String,
    pub url: String,
    pub title: String,
    pub tab_id: String,
    pub ai_prompt: String,
    pub update: SettingsUpdate,
}

pub struct IpcMsgView {
    pub cmd: Seq<char>,
    pub url: Seq<char>,
    pub title: Seq<char>,
    pub tab_id: Seq<char>,
    pub ai_prompt: Seq<char>,
    pub update: SettingsUpdateView,
}

impl View for IpcMsg {
    type V = IpcMsgView;

    open spec fn view(&self) -> IpcMsgView {
        IpcMsgView {
            cmd: self.cmd@,
            url: self.url@,
            title: self.title@,
            tab_id: self.tab_id@,
            ai_prompt: self.ai_prompt@,
            update: self.update@,
        }
    }
}

/// Work that the shell around the library performs.
pub enum Effect {
    /// Load this URL in the web view.
    LoadUrl(String),
    /// Load the new-tab page built from the current settings.
    LoadNtpPage,
    /// Load the new-tab page template as it is, without the settings (Linux tab clicks).
    LoadNtpTemplate,
    /// Load the settings page built from the current settings.
    LoadSettingsPage,
    /// Run the toolbar script in the page (Windows).
    InjectToolbar,
    /// Rebuild the tab bar from the tabs (Linux).
    RefreshTabBar,
    /// Send the tabs to the page's toolbar (Windows).
    SyncTabs,
    /// Write the settings to disk.
    PersistSettings,
    /// Ask the settings page for its form values, which come back as an update (Linux).
    CollectSettings,
    /// Send the prompt to the AI service with this key and model.
    AskAi { api_key: String, model: String, prompt: String },
    /// Remove the stored profile data.
    ClearData,
    /// Run this script in the page.
    RunScript(String),
}

pub enum EffectView {
    LoadUrl(Seq<char>),
    LoadNtpPage,
    LoadNtpTemplate,
    LoadSettingsPage,
    InjectToolbar,
    RefreshTabBar,
    SyncTabs,
    PersistSettings,
    CollectSettings,
    AskAi { api_key: Seq<char>, model: Seq<char>, prompt: Seq<char> },
    ClearData,
    RunScript(Seq<char>),
}

impl View for Effect {
    type V = EffectView;

    open spec fn view(&self) -> EffectView {
        match self {
            Effect::LoadUrl(u) => EffectView::LoadUrl(u@),
            Effect::LoadNtpPage => EffectView::LoadNtpPage,
            Effect::LoadNtpTemplate => EffectView::LoadNtpTemplate,
            Effect::LoadSettingsPage => EffectView::LoadSettingsPage,
            Effect::InjectToolbar => EffectView::InjectToolbar,
            Effect::RefreshTabBar => EffectView::RefreshTabBar,
            Effect::SyncTabs => EffectView::SyncTabs,
            Effect::PersistSettings => EffectView::PersistSettings,
            Effect::CollectSettings => EffectView::CollectSettings,
            Effect::AskAi { api_key, model, prompt } => EffectView::AskAi {
                api_key: api_key@,
                model: model@,
                prompt: prompt@,
            },
            Effect::ClearData => EffectView::ClearData,
            Effect::RunScript(s) => EffectView::RunScript(s@),
        }
    }
}

pub open spec fn effects_view(v: Seq<Effect>) -> Seq<EffectView> {
    v.map_values(|e: Effect| e@)
}

} // verus!
