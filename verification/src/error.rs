//! The failures of the proxy, and what the caller sees of each.

use vstd::prelude::*;
use vstd::string::StringExecFns;
use crate::text::{json_object, json_object_text, opt_text};

verus! {

/// Why a request could not be answered from the upstream.
#[derive(Debug, Clone)]
pub enum ProxyError {
    /// The target URL is no absolute URL; holds the parser's message.
    RequestBuilderError(String),
    /// The outbound request failed in transport; holds the transport's text.
    RequestError(String),
    /// Reading the upstream body failed; holds the I/O layer's text.
    ResponseReadError(String),
    /// An inbound header value is not text; holds the header's name.
    InvalidHeader(String),
    /// The upstream body is not UTF-8.
    ResponseBodyConversionError,
    /// The configuration is malformed; holds the loader's text.
    ConfigError(String),
}

/// The mathematical content of a [`ProxyError`].
pub enum ErrorView {
    RequestBuilderError(Seq<char>),
    RequestError(Seq<char>),
    ResponseReadError(Seq<char>),
    InvalidHeader(Seq<char>),
    ResponseBodyConversionError,
    ConfigError(Seq<char>),
}

impl View for ProxyError {
    type V = ErrorView;

    open spec fn view(&self) -> ErrorView {
        match self {
            ProxyError::RequestBuilderError(m) => ErrorView::RequestBuilderError(m@),
            ProxyError::RequestError(m) => ErrorView::RequestError(m@),
            ProxyError::ResponseReadError(m) => ErrorView::ResponseReadError(m@),
            ProxyError::InvalidHeader(m) => ErrorView::InvalidHeader(m@),
            ProxyError::ResponseBodyConversionError => ErrorView::ResponseBodyConversionError,
            ProxyError::ConfigError(m) => ErrorView::ConfigError(m@),
        }
    }
}

impl ErrorView {
    /// The HTTP status that the caller sees: 400 for a fault of the request,
    /// 500 for every other.
    pub open spec fn status(self) -> u16 {
        match self {
            ErrorView::RequestBuilderError(_) => 400,
            ErrorView::InvalidHeader(_) => 400,
            _ => 500,
        }
    }

    /// The short name of the failure's category.
    pub open spec fn category(self) -> Seq<char> {
        match self {
            ErrorView::RequestBuilderError(_) => "请求构建失败"@,
            ErrorView::RequestError(_) => "代理请求失败"@,
            ErrorView::ResponseReadError(_) => "读取响应体错误"@,
            ErrorView::InvalidHeader(_) => "无效的请求头"@,
            ErrorView::ResponseBodyConversionError => "响应体转换错误"@,
            ErrorView::ConfigError(_) => "配置错误"@,
        }
    }

    /// The text that the failure carries, if it carries one.
    pub open spec fn context(self) -> Option<Seq<char>> {
        match self {
            ErrorView::RequestBuilderError(m) => Some(m),
            ErrorView::RequestError(m) => Some(m),
            ErrorView::ResponseReadError(m) => Some(m),
            ErrorView::InvalidHeader(m) => Some(m),
            ErrorView::ResponseBodyConversionError => None,
            ErrorView::ConfigError(m) => Some(m),
        }
    }

    /// The full message: the category, then a colon, a space and the carried
    /// text where there is one.
    pub open spec fn message(self) -> Seq<char> {
        match self.context() {
            Some(m) => self.category() + ": "@ + m,
            None => self.category(),
        }
    }

    /// The `details` field of the error body: the full message, left out
    /// where the failure carries no text.
    pub open spec fn details(self) -> Option<Seq<char>> {
        match self.context() {
            Some(_) => Some(self.message()),
            None => None,
        }
    }
}

/// The JSON object that tells the caller of a failure, as its two fields.
#[derive(Debug, Clone)]
pub struct ErrorBody {
    /// The `error` field.
    pub error: String,
    /// The `details` field; `None` where the object has none.
    pub details: Option<String>,
}

/// The mathematical content of an [`ErrorBody`].
pub struct ErrorBodyView {
    pub error: Seq<char>,
    pub details: Option<Seq<char>>,
}

impl View for ErrorBody {
    type V = ErrorBodyView;

    open spec fn view(&self) -> ErrorBodyView {
        ErrorBodyView { error: self.error@, details: opt_text(self.details) }
    }
}

/// What the caller is sent in place of the upstream's answer.
#[derive(Debug, Clone)]
pub struct ErrorResponse {
    pub status: u16,
    pub body: ErrorBody,
}

/// The mathematical content of an [`ErrorResponse`].
pub struct ErrorResponseView {
    pub status: u16,
    pub body: ErrorBodyView,
}

impl View for ErrorResponse {
    type V = ErrorResponseView;

    open spec fn view(&self) -> ErrorResponseView {
        ErrorResponseView { status: self.status, body: self.body@ }
    }
}

/// The error object that stands for a failure.
pub open spec fn error_body_of(e: ErrorView) -> ErrorBodyView {
    ErrorBodyView { error: e.category(), details: e.details() }
}

/// The error response that stands for a failure.
pub open spec fn error_response_of(e: ErrorView) -> ErrorResponseView {
    ErrorResponseView { status: e.status(), body: error_body_of(e) }
}

/// The members of the error object, in the order in which they are written:
/// `error`, then `details` where there is one.
pub open spec fn error_members(body: ErrorBodyView) -> Seq<(Seq<char>, Seq<char>)> {
    match body.details {
        Some(d) => seq![("error"@, body.error), ("details"@, d)],
        None => seq![("error"@, body.error)],
    }
}

impl ErrorBody {
    /// The object as JSON text, as the serialiser writes it; `None` where the
    /// serialiser gives up.
    pub fn to_json(&self) -> (text: Option<String>)
        ensures
            opt_text(text) == json_object_text(error_members(self@)),
    {
        let mut members: Vec<(String, String)> = Vec::new();
        members.push(("error".to_owned(), self.error.clone()));
        match &self.details {
            Some(d) => {
                members.push(("details".to_owned(), d.clone()));
            },
            None => {},
        }
        proof {
            assert(members.deep_view() =~= error_members(self@));
        }
        json_object(&members)
    }
}

impl ProxyError {
    /// The HTTP status that the caller sees.
    pub fn status_code(&self) -> (code: u16)
        ensures
            code == self@.status(),
    {
        match self {
            ProxyError::RequestBuilderError(_) => 400,
            ProxyError::InvalidHeader(_) => 400,
            ProxyError::RequestError(_) => 500,
            ProxyError::ResponseReadError(_) => 500,
            ProxyError::ResponseBodyConversionError => 500,
            ProxyError::ConfigError(_) => 500,
        }
    }

    /// The short name of the failure's category.
    pub fn category(&self) -> (name: String)
        ensures
            name@ == self@.category(),
    {
        match self {
            ProxyError::RequestBuilderError(_) => "请求构建失败".to_owned(),
            ProxyError::RequestError(_) => "代理请求失败".to_owned(),
            ProxyError::ResponseReadError(_) => "读取响应体错误".to_owned(),
            ProxyError::InvalidHeader(_) => "无效的请求头".to_owned(),
            ProxyError::ResponseBodyConversionError => "响应体转换错误".to_owned(),
            ProxyError::ConfigError(_) => "配置错误".to_owned(),
        }
    }

    /// The full message of the failure.
    pub fn message(&self) -> (text: String)
        ensures
            text@ == self@.message(),
    {
        let mut text = self.category();
        match self {
            ProxyError::RequestBuilderError(m) => {
                text.append(": ");
                text.append(m.as_str());
            },
            ProxyError::RequestError(m) => {
                text.append(": ");
                text.append(m.as_str());
            },
            ProxyError::ResponseReadError(m) => {
                text.append(": ");
                text.append(m.as_str());
            },
            ProxyError::InvalidHeader(m) => {
                text.append(": ");
                text.append(m.as_str());
            },
            ProxyError::ResponseBodyConversionError => {},
            ProxyError::ConfigError(m) => {
                text.append(": ");
                text.append(m.as_str());
            },
        }
        text
    }

    /// The response that tells the caller of the failure.
    pub fn error_response(&self) -> (resp: ErrorResponse)
        ensures
            resp@ == error_response_of(self@),
    {
        let details = match self {
            ProxyError::ResponseBodyConversionError => None,
            _ => Some(self.message()),
        };
        ErrorResponse {
            status: self.status_code(),
            body: ErrorBody { error: self.category(), details },
        }
    }
}

} // verus!
