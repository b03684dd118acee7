use vstd::prelude::*;

use crate::metadata::Metadata;

verus! {

/// What went wrong while talking to a provider.
#[derive(Debug)]
pub enum ChatError {
    Network(String),
    Provider(String),
    RateLimited,
    InvalidResponse(String),
    Other(String),
}

/// The mathematical value of a `ChatError`: messages as character sequences.
pub enum ChatErrorView {
    Network(Seq<char>),
    Provider(Seq<char>),
    RateLimited,
    InvalidResponse(Seq<char>),
    Other(Seq<char>),
}

impl View for ChatError {
    type V = ChatErrorView;

    open spec fn view(&self) -> ChatErrorView {
        match self {
            ChatError::Network(s) => ChatErrorView::Network(s@),
            ChatError::Provider(s) => ChatErrorView::Provider(s@),
            ChatError::RateLimited => ChatErrorView::RateLimited,
            ChatError::InvalidResponse(s) => ChatErrorView::InvalidResponse(s@),
            ChatError::Other(s) => ChatErrorView::Other(s@),
        }
    }
}

impl ChatErrorView {
    /// Errors that another provider, or a later attempt, may not hit:
    /// rate limits and network issues.
    pub open spec fn retryable(self) -> bool {
        self is RateLimited || self is Network
    }

    /// The text the error displays as.
    pub open spec fn message(self) -> Seq<char> {
        match self {
            ChatErrorView::Network(s) => "network error: "@ + s,
            ChatErrorView::Provider(s) => "provider error: "@ + s,
            ChatErrorView::RateLimited => "rate limited"@,
            ChatErrorView::InvalidResponse(s) => "invalid response: "@ + s,
            ChatErrorView::Other(s) => "unknown error: "@ + s,
        }
    }
}

impl Clone for ChatError {
    fn clone(&self) -> (r: Self)
        ensures
            r@ == self@,
    {
        match self {
            ChatError::Network(s) => ChatError::Network(s.clone()),
            ChatError::Provider(s) => ChatError::Provider(s.clone()),
            ChatError::RateLimited => ChatError::RateLimited,
            ChatError::InvalidResponse(s) => ChatError::InvalidResponse(s.clone()),
            ChatError::Other(s) => ChatError::Other(s.clone()),
        }
    }
}

impl ChatError {
    /// Whether the error is worth trying on another provider (rate limits,
    /// network issues).
    pub fn is_retryable(&self) -> (b: bool)
        ensures
            b == self@.retryable(),
    {
        match self {
            ChatError::Network(_) | ChatError::RateLimited => true,
            _ => false,
        }
    }

    /// The text the error displays as.
    pub fn to_string(&self) -> (s: String)
        ensures
            s@ == self@.message(),
    {
        match self {
            ChatError::Network(m) => "network error: ".to_owned().concat(m.as_str()),
            ChatError::Provider(m) => "provider error: ".to_owned().concat(m.as_str()),
            ChatError::RateLimited => "rate limited".to_owned(),
            ChatError::InvalidResponse(m) => "invalid response: ".to_owned().concat(m.as_str()),
            ChatError::Other(m) => "unknown error: ".to_owned().concat(m.as_str()),
        }
    }
}

/// A failed chat call: the error with whatever metadata was gathered.
#[derive(Debug)]
pub struct ChatFailure {
    pub metadata: Option<Metadata>,
    pub err: ChatError,
}

impl ChatFailure {
    pub fn from_err(err: ChatError) -> (f: ChatFailure)
        ensures
            f.metadata is None,
            f.err == err,
    {
        ChatFailure { metadata: None, err }
    }
}

} // verus!
