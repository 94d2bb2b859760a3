//! What a bot sends in answer: a page, and the keyboard below it.

use crate::buttons::{ButtonView, Keyboard};
use crate::templates::Templates;
use vstd::prelude::*;

verus! {

/// One message that a bot sends.
#[derive(Debug, PartialEq, Eq)]
pub struct Reply {
    /// The page that the message shows.
    pub template: Templates,
    /// The keyboard below the page, if it has one.
    pub keyboard: Option<Keyboard>,
    /// Whether links in the page are shown without a preview.
    pub disable_web_page_preview: bool,
}

impl Reply {
    /// The buttons of the keyboard, row by row, or nothing for a message
    /// without a keyboard.
    pub open spec fn layout(self) -> Option<Seq<Seq<ButtonView>>> {
        match self.keyboard {
            Some(keyboard) => Some(keyboard@),
            None => None,
        }
    }

    /// The loading page, which has no keyboard.
    pub fn loading() -> (reply: Reply)
        ensures
            reply.template == Templates::LoadingPage,
            reply.keyboard is None,
            !reply.disable_web_page_preview,
    {
        Reply { template: Templates::LoadingPage, keyboard: None, disable_web_page_preview: false }
    }

    /// A page with the keyboard below it.
    pub fn page(template: Templates, keyboard: Keyboard, disable_web_page_preview: bool) -> (reply:
        Reply)
        ensures
            reply.template == template,
            reply.keyboard == Some(keyboard),
            reply.disable_web_page_preview == disable_web_page_preview,
    {
        Reply { template, keyboard: Some(keyboard), disable_web_page_preview }
    }
}

} // verus!
