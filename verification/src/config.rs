use crate::history::{join, spec_join};
use vstd::prelude::*;

verus! {

/// Where the configuration is stored, below the home directory.
pub const CONFIGURATION_FILE: &'static str = ".config/cgpt/.cf";

/// Where histories are kept unless the configuration says otherwise, below
/// the home directory.
pub const CONVERSATIONS: &'static str = ".config/cgpt/conversations";

/// The conversation that is current until another is checked out.
pub const DEFAULT_CHAT: &'static str = "chat";

/// What is remembered from one run to the next.
#[derive(Debug, PartialEq, Eq)]
pub struct Configuration {
    /// The directory that holds the histories.
    pub save_path: String,
    /// The identifier of the conversation that a message continues by default.
    pub current_chat: String,
}

/// What a [`Configuration`] is to the contracts.
pub ghost struct ConfigurationView {
    pub save_path: Seq<char>,
    pub current_chat: Seq<char>,
}

impl View for Configuration {
    type V = ConfigurationView;

    open spec fn view(&self) -> ConfigurationView {
        ConfigurationView { save_path: self.save_path@, current_chat: self.current_chat@ }
    }
}

impl ConfigurationView {
    /// The configuration of a user who has stored none.
    pub open spec fn defaults(home: Seq<char>) -> ConfigurationView {
        ConfigurationView {
            save_path: spec_join(home, CONVERSATIONS@),
            current_chat: DEFAULT_CHAT@,
        }
    }

    /// The configuration after `id` was checked out: the same directory, and
    /// `id` as the current conversation.
    pub open spec fn checkout(self, id: Seq<char>) -> ConfigurationView {
        ConfigurationView { save_path: self.save_path, current_chat: id }
    }
}

impl Configuration {
    /// Returns the configuration of a user who has stored none, and whose home
    /// directory is `home`.
    pub fn defaults(home: &str) -> (configuration: Configuration)
        ensures
            configuration@ == ConfigurationView::defaults(home@),
    {
        Configuration { save_path: join(home, CONVERSATIONS), current_chat: DEFAULT_CHAT.to_owned() }
    }

    /// Makes `id` the current conversation and keeps the directory.
    pub fn checkout(self, id: String) -> (configuration: Configuration)
        ensures
            configuration@ == self@.checkout(id@),
    {
        Configuration { save_path: self.save_path, current_chat: id }
    }
}

} // verus!
