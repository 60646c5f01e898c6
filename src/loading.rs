use vstd::prelude::*;

verus! {

/// The fetch-lifecycle phase of a data controller.
#[derive(Debug, Clone, Default, PartialEq, Eq)]
pub enum LoadingState {
    #[default]
    Idle,
    Reloaded,
    Loading,
    PageLoaded,
    Error(String),
}

impl LoadingState {
    /// True while a fetch has been asked for and has not settled.
    pub fn is_loading(&self) -> (r: bool)
        ensures
            r == (*self is Loading),
    {
        match self {
            LoadingState::Loading => true,
            _ => false,
        }
    }

    /// The message of a failed fetch, if the last one failed.
    pub fn error_message(&self) -> (r: Option<String>)
        ensures
            match *self {
                LoadingState::Error(m) => r matches Some(s) && s@ == m@,
                _ => r is None,
            },
    {
        match self {
            LoadingState::Error(m) => Some(m.clone()),
            _ => None,
        }
    }
}

/// A fetch request as it travels to the background worker.
#[derive(Debug)]
pub enum Message {
    Reload,
    LoadPage { page_token: Vec<u8> },
}

/// What a [`Message`] asks for, as mathematical values.
pub enum MessageView {
    Reload,
    LoadPage { page_token: Seq<u8> },
}

impl View for Message {
    type V = MessageView;

    open spec fn view(&self) -> MessageView {
        match self {
            Message::Reload => MessageView::Reload,
            Message::LoadPage { page_token } => MessageView::LoadPage { page_token: page_token@ },
        }
    }
}

} // verus!
