//! The message exchanged between requester and dispatcher.

use crate::secret::secret_text;
use secstr::SecUtf8;
use vstd::prelude::*;

verus! {

/// Which kind of session a request asks for.
#[derive(Clone, Copy, Debug, PartialEq, Eq, Structural)]
pub enum RequestKind {
    Terminal,
    Code,
}

impl RequestKind {
    /// The name that stands for this kind on the wire.
    pub open spec fn spec_name(self) -> Seq<char> {
        match self {
            RequestKind::Terminal => "terminal"@,
            RequestKind::Code => "code"@,
        }
    }

    /// The kind that `name` stands for, if any.
    pub open spec fn named(name: Seq<char>) -> Option<RequestKind> {
        if name == "terminal"@ {
            Some(RequestKind::Terminal)
        } else if name == "code"@ {
            Some(RequestKind::Code)
        } else {
            None
        }
    }

    /// The name that stands for this kind on the wire.
    pub fn name(self) -> (name: &'static str)
        ensures
            name@ == self.spec_name(),
    {
        match self {
            RequestKind::Terminal => "terminal",
            RequestKind::Code => "code",
        }
    }

    /// The kind that `name` stands for, or `None` where it names neither kind.
    pub fn from_name(name: &str) -> (kind: Option<RequestKind>)
        ensures
            kind == RequestKind::named(name@),
    {
        let name = name.to_owned();
        if name == RequestKind::Terminal.name().to_owned() {
            Some(RequestKind::Terminal)
        } else if name == RequestKind::Code.name().to_owned() {
            Some(RequestKind::Code)
        } else {
            None
        }
    }
}

/// What a requester asks the dispatcher to open. `path` is a path on the
/// remote host, chosen by the requester.
#[derive(Debug, PartialEq, Eq)]
pub enum MessageRequest {
    Terminal { path: String },
    Code { path: String },
}

/// A request as a mathematical value.
pub ghost struct RequestView {
    pub kind: RequestKind,
    pub path: Seq<char>,
}

impl View for MessageRequest {
    type V = RequestView;

    open spec fn view(&self) -> RequestView {
        match *self {
            MessageRequest::Terminal { path } => RequestView {
                kind: RequestKind::Terminal,
                path: path@,
            },
            MessageRequest::Code { path } => RequestView { kind: RequestKind::Code, path: path@ },
        }
    }
}

impl MessageRequest {
    /// The request of kind `kind` about `path`.
    pub fn new(kind: RequestKind, path: String) -> (request: MessageRequest)
        ensures
            request@ == (RequestView { kind, path: path@ }),
    {
        match kind {
            RequestKind::Terminal => MessageRequest::Terminal { path },
            RequestKind::Code => MessageRequest::Code { path },
        }
    }

    /// The kind of this request.
    pub fn kind(&self) -> (kind: RequestKind)
        ensures
            kind == self@.kind,
    {
        match self {
            MessageRequest::Terminal { .. } => RequestKind::Terminal,
            MessageRequest::Code { .. } => RequestKind::Code,
        }
    }

    /// The path that this request is about.
    pub fn path(&self) -> (path: &str)
        ensures
            path@ == self@.path,
    {
        match self {
            MessageRequest::Terminal { path } => path.as_str(),
            MessageRequest::Code { path } => path.as_str(),
        }
    }
}

/// The one message of a connection: the requester's secret and its request.
#[derive(Debug, PartialEq, Eq)]
pub struct Message {
    pub secret: SecUtf8,
    pub request: MessageRequest,
}

/// A message as a mathematical value.
pub ghost struct MessageView {
    pub secret: Seq<char>,
    pub request: RequestView,
}

impl View for Message {
    type V = MessageView;

    open spec fn view(&self) -> MessageView {
        MessageView { secret: secret_text(self.secret), request: self.request@ }
    }
}

} // verus!
