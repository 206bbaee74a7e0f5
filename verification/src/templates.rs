//! The pages of the HTML interface, as the data each one is rendered from.
//! Rendering itself is left to the embedding program.

use vstd::prelude::*;
use crate::db::sample_views;
use crate::models::sample::{Sample, SampleView};
use crate::services::sample::opt_sample;
use crate::session::Session;

verus! {

/// What every page knows of the caller.
#[derive(Clone, Copy, Debug, PartialEq, Eq)]
pub struct BaseCtx {
    pub is_authenticated: bool,
}

impl Default for BaseCtx {
    fn default() -> (ctx: BaseCtx)
        ensures
            !ctx.is_authenticated,
    {
        BaseCtx { is_authenticated: false }
    }
}

/// The page for a request that failed on the server.
#[derive(Debug, PartialEq, Eq)]
pub struct Error500Tmpl {
    pub ctx: BaseCtx,
    pub message: String,
}

/// The page for a sample that does not exist.
#[derive(Debug, PartialEq, Eq)]
pub struct Error404Tmpl {
    pub ctx: BaseCtx,
}

/// The page for a sample that the caller may not edit.
#[derive(Debug, PartialEq, Eq)]
pub struct Error403Tmpl {
    pub ctx: BaseCtx,
}

/// The list of all samples.
#[derive(Debug, PartialEq, Eq)]
pub struct SamplesListTmpl {
    pub ctx: BaseCtx,
    pub samples: Vec<Sample>,
}

/// The form that creates a sample, or edits `s` where it is given; it is
/// submitted to `action`.
#[derive(Debug, PartialEq, Eq)]
pub struct SampleFormTmpl {
    pub ctx: BaseCtx,
    pub s: Option<Sample>,
    pub action: String,
}

/// The login form, with or without the notice of a failed attempt.
#[derive(Debug, PartialEq, Eq)]
pub struct LoginTmpl {
    pub ctx: BaseCtx,
    pub error: bool,
}

/// One of the pages.
#[derive(Debug, PartialEq, Eq)]
pub enum Page {
    Error500(Error500Tmpl),
    Error404(Error404Tmpl),
    Error403(Error403Tmpl),
    SamplesList(SamplesListTmpl),
    SampleForm(SampleFormTmpl),
    Login(LoginTmpl),
}

/// Mathematical value of a [`Page`].
pub ghost enum PageView {
    Error500 { ctx: BaseCtx, message: Seq<char> },
    Error404 { ctx: BaseCtx },
    Error403 { ctx: BaseCtx },
    SamplesList { ctx: BaseCtx, samples: Seq<SampleView> },
    SampleForm { ctx: BaseCtx, s: Option<SampleView>, action: Seq<char> },
    Login { ctx: BaseCtx, error: bool },
}

impl View for Page {
    type V = PageView;

    open spec fn view(&self) -> PageView {
        match self {
            Page::Error500(t) => PageView::Error500 { ctx: t.ctx, message: t.message@ },
            Page::Error404(t) => PageView::Error404 { ctx: t.ctx },
            Page::Error403(t) => PageView::Error403 { ctx: t.ctx },
            Page::SamplesList(t) => PageView::SamplesList { ctx: t.ctx, samples: sample_views(t.samples@) },
            Page::SampleForm(t) => PageView::SampleForm { ctx: t.ctx, s: opt_sample(t.s), action: t.action@ },
            Page::Login(t) => PageView::Login { ctx: t.ctx, error: t.error },
        }
    }
}

/// What a page knows of the caller of this session: whether it is logged in.
pub fn base_ctx(session: &Session) -> (ctx: BaseCtx)
    ensures
        ctx.is_authenticated == session@.is_some(),
{
    BaseCtx { is_authenticated: session.get().is_some() }
}

} // verus!
