//! The failures that the library reports.

use crate::catalog::MediaKind;
use crate::decimal::{decimal_string, decimal_text};
use vstd::prelude::*;
use vstd::string::*;

verus! {

/// Why an endpoint could not be selected, resolved or downloaded.
#[derive(Clone, Copy, Debug, PartialEq, Eq, Structural)]
pub enum FetchError {
    /// The selected category offers no endpoint.
    NoEndpoints,
    /// A redirection came without a usable `Location`.
    MissingRedirectTarget,
    /// A JSON envelope carried an application code other than 200.
    UpstreamError,
    /// A body that opens like JSON is not the JSON that was expected.
    MalformedBody,
    /// A JSON body holds no address under any of the known keys.
    NoUrlInResponse,
    /// Nothing in the response tells where the media is; holds the status.
    UnknownResponseFormat(u16),
    /// The declared or received payload is over the limit.
    PayloadTooLarge,
    /// More redirections in a row than a download follows.
    TooManyRedirects,
    /// The final response of a download was not a success; holds the status.
    HttpStatus(u16),
}

/// Why a change to the catalog was refused.
#[derive(Clone, Copy, Debug, PartialEq, Eq, Structural)]
pub enum CatalogError {
    /// No category has the given identifier.
    CategoryNotFound,
    /// No user-defined endpoint has the given identifier.
    EndpointNotFound,
    /// A category name is empty once trimmed.
    EmptyCategoryName,
    /// An endpoint name or address is empty once trimmed.
    EmptyNameOrUrl,
    /// Built-in categories cannot be deleted.
    BuiltinCategory,
}

/// Why no item could be taken for playback.
#[derive(Clone, Copy, Debug, PartialEq, Eq, Structural)]
pub enum QueueError {
    /// No preloaded item is ready.
    NothingPreloaded,
}

/// What the user is told of a failure to select, resolve or download.
pub open spec fn fetch_error_text(error: FetchError) -> Seq<char> {
    match error {
        FetchError::NoEndpoints => "没有可用的接口"@,
        FetchError::MissingRedirectTarget => "重定向但无Location头"@,
        FetchError::UpstreamError => "API返回错误"@,
        FetchError::MalformedBody => "解析失败"@,
        FetchError::NoUrlInResponse => "JSON中未找到图片地址"@,
        FetchError::UnknownResponseFormat(status) => "未知响应格式, 状态码: "@ + decimal_text(
            status as nat,
        ),
        FetchError::PayloadTooLarge => "文件过大"@,
        FetchError::TooManyRedirects => "重定向次数过多"@,
        FetchError::HttpStatus(status) => "HTTP错误: "@ + decimal_text(status as nat),
    }
}

/// What the user is told of a payload of the given kind that is over the
/// limit: the kind and the limit.
pub open spec fn payload_too_large_text(kind: MediaKind) -> Seq<char> {
    match kind {
        MediaKind::Video => "视频文件过大 (>100MB)"@,
        MediaKind::Image => "图片文件过大 (>15MB)"@,
    }
}

/// What the user is told of a failure to select, resolve or download media
/// of the given kind.
pub open spec fn fetch_error_text_for(error: FetchError, kind: MediaKind) -> Seq<char> {
    match error {
        FetchError::PayloadTooLarge => payload_too_large_text(kind),
        _ => fetch_error_text(error),
    }
}

/// What the user is told of a change to the catalog that was refused.
pub open spec fn catalog_error_text(error: CatalogError) -> Seq<char> {
    match error {
        CatalogError::CategoryNotFound => "分类不存在"@,
        CatalogError::EndpointNotFound => "未找到该接口"@,
        CatalogError::EmptyCategoryName => "分类名称不能为空"@,
        CatalogError::EmptyNameOrUrl => "名称和URL不能为空"@,
        CatalogError::BuiltinCategory => "无法删除内置分类"@,
    }
}

/// What the user is told when no item could be taken for playback.
pub open spec fn queue_error_text(error: QueueError) -> Seq<char> {
    match error {
        QueueError::NothingPreloaded => "没有预加载的视频"@,
    }
}

impl FetchError {
    /// What the user is told of this failure.
    pub fn message(&self) -> (text: String)
        ensures
            text@ == fetch_error_text(*self),
    {
        match self {
            FetchError::NoEndpoints => String::from_str("没有可用的接口"),
            FetchError::MissingRedirectTarget => String::from_str("重定向但无Location头"),
            FetchError::UpstreamError => String::from_str("API返回错误"),
            FetchError::MalformedBody => String::from_str("解析失败"),
            FetchError::NoUrlInResponse => String::from_str("JSON中未找到图片地址"),
            FetchError::UnknownResponseFormat(status) => {
                let mut text = String::from_str("未知响应格式, 状态码: ");
                text.append(decimal_string(*status as u128).as_str());
                text
            },
            FetchError::PayloadTooLarge => String::from_str("文件过大"),
            FetchError::TooManyRedirects => String::from_str("重定向次数过多"),
            FetchError::HttpStatus(status) => {
                let mut text = String::from_str("HTTP错误: ");
                text.append(decimal_string(*status as u128).as_str());
                text
            },
        }
    }
}

impl FetchError {
    /// What the user is told of this failure when it came about for media of
    /// the given kind: a payload over the limit is reported with the kind
    /// and the limit.
    pub fn message_for(&self, kind: MediaKind) -> (text: String)
        ensures
            text@ == fetch_error_text_for(*self, kind),
    {
        match self {
            FetchError::PayloadTooLarge => match kind {
                MediaKind::Video => String::from_str("视频文件过大 (>100MB)"),
                MediaKind::Image => String::from_str("图片文件过大 (>15MB)"),
            },
            _ => self.message(),
        }
    }
}

impl CatalogError {
    /// What the user is told of this refusal.
    pub fn message(&self) -> (text: String)
        ensures
            text@ == catalog_error_text(*self),
    {
        match self {
            CatalogError::CategoryNotFound => String::from_str("分类不存在"),
            CatalogError::EndpointNotFound => String::from_str("未找到该接口"),
            CatalogError::EmptyCategoryName => String::from_str("分类名称不能为空"),
            CatalogError::EmptyNameOrUrl => String::from_str("名称和URL不能为空"),
            CatalogError::BuiltinCategory => String::from_str("无法删除内置分类"),
        }
    }
}

impl QueueError {
    /// What the user is told of this failure.
    pub fn message(&self) -> (text: String)
        ensures
            text@ == queue_error_text(*self),
    {
        match self {
            QueueError::NothingPreloaded => String::from_str("没有预加载的视频"),
        }
    }
}

} // verus!
