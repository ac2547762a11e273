//! What is sent to the platform: the bodies of the requests.

use vstd::prelude::*;
use crate::text::{chars_of, contains, find, last_index_of, rfind_char, string_of_range};

verus! {

#[derive(Debug, PartialEq, Eq)]
pub struct ConfigInfo {
    pub app_install_data: Option<&'static str>,
}

#[derive(Debug, PartialEq, Eq)]
pub struct MainAppWebInfo {
    pub graft_url: Option<&'static str>,
    pub web_display_mode: Option<&'static str>,
    pub is_web_native_share_available: Option<bool>,
}

#[derive(Debug, PartialEq, Eq)]
pub struct Client {
    pub hl: Option<&'static str>,
    pub gl: Option<&'static str>,
    pub remote_host: Option<&'static str>,
    pub device_make: Option<&'static str>,
    pub device_model: Option<&'static str>,
    /// Without it the platform answers with headers only.
    pub visitor_data: Option<String>,
    pub user_agent: Option<&'static str>,
    pub client_name: &'static str,
    pub client_version: &'static str,
    pub os_name: Option<&'static str>,
    pub os_version: Option<&'static str>,
    pub original_url: Option<&'static str>,
    pub platform: Option<&'static str>,
    pub client_form_factor: Option<&'static str>,
    pub config_info: Option<ConfigInfo>,
    pub browser_name: Option<&'static str>,
    pub browser_version: Option<&'static str>,
    pub accept_header: Option<&'static str>,
    pub device_experiment_id: Option<&'static str>,
    pub screen_width_points: Option<u64>,
    pub screen_height_points: Option<u64>,
    pub screen_pixel_density: Option<u16>,
    pub screen_density_float: Option<u16>,
    pub utc_offset_minutes: Option<i16>,
    pub user_interface_theme: Option<&'static str>,
    pub main_app_web_info: Option<MainAppWebInfo>,
    pub time_zone: Option<&'static str>,
}

#[derive(Debug, PartialEq, Eq)]
pub struct User {
    pub locked_safety_mode: Option<bool>,
}

#[derive(Debug, PartialEq, Eq)]
pub struct Request {
    pub use_ssl: Option<bool>,
    pub internal_experiment_flags: Option<Vec<()>>,
    pub consistency_token_jars: Option<Vec<()>>,
}

#[derive(Debug, PartialEq, Eq)]
pub struct Param {
    pub key: Option<&'static str>,
    pub value: Option<&'static str>,
}

#[derive(Debug, PartialEq, Eq)]
pub struct AdSignalsInfo {
    pub params: Option<Vec<Param>>,
}

#[derive(Debug, PartialEq, Eq)]
pub struct Context {
    pub client: Client,
    pub user: Option<User>,
    pub request: Option<Request>,
    pub ad_signals_info: Option<AdSignalsInfo>,
}

/// The body of most requests.
#[derive(Debug, PartialEq, Eq)]
pub struct BrowseRequest {
    pub context: Context,
    pub continuation: Option<String>,
    pub browse_id: Option<String>,
    pub inline_setting_status: Option<&'static str>,
    pub params: Option<String>,
    pub video_id: Option<String>,
    pub language_code: Option<&'static str>,
}

#[derive(Debug, PartialEq, Eq)]
pub struct PlaybackContext {
    pub vis: Option<u8>,
    pub lact_milliseconds: Option<&'static str>,
}

/// The body of a request for what is recommended beside a video.
#[derive(Debug, PartialEq, Eq)]
pub struct NextRequest {
    pub context: Context,
    pub video_id: String,
    pub racy_check_ok: Option<bool>,
    pub content_check_ok: Option<bool>,
    pub autonav_state: Option<&'static str>,
    pub playback_context: Option<PlaybackContext>,
    pub captions_requested: Option<bool>,
}

/// The body of a search.
#[derive(Debug, PartialEq, Eq)]
pub struct SearchRequest {
    pub context: Context,
    pub query: String,
    pub params: Option<String>,
    pub web_searchbox_stats_url: Option<&'static str>,
}

impl ConfigInfo {
    pub open spec fn is_default(&self) -> bool {
        self.app_install_data is None
    }
}

impl Default for ConfigInfo {
    fn default() -> (r: Self)
        ensures
            r.is_default(),
    {
        ConfigInfo { app_install_data: None }
    }
}

impl MainAppWebInfo {
    pub open spec fn is_default(&self) -> bool {
        &&& self.graft_url is None
        &&& self.web_display_mode is None
        &&& self.is_web_native_share_available is None
    }
}

impl Default for MainAppWebInfo {
    fn default() -> (r: Self)
        ensures
            r.is_default(),
    {
        MainAppWebInfo {
            graft_url: None,
            web_display_mode: None,
            is_web_native_share_available: None,
        }
    }
}

impl Client {
    /// Every field but the visitor data is as `default` sets it: the
    /// client is named `WEB`, with version `2.0000011`, and nothing else is
    /// set.
    pub open spec fn is_default_but_visitor(&self) -> bool {
        &&& self.hl is None
        &&& self.gl is None
        &&& self.remote_host is None
        &&& self.device_make is None
        &&& self.device_model is None
        &&& self.user_agent is None
        &&& self.client_name@ == "WEB"@
        &&& self.client_version@ == "2.0000011"@
        &&& self.os_name is None
        &&& self.os_version is None
        &&& self.original_url is None
        &&& self.platform is None
        &&& self.client_form_factor is None
        &&& self.config_info is None
        &&& self.browser_name is None
        &&& self.browser_version is None
        &&& self.accept_header is None
        &&& self.device_experiment_id is None
        &&& self.screen_width_points is None
        &&& self.screen_height_points is None
        &&& self.screen_pixel_density is None
        &&& self.screen_density_float is None
        &&& self.utc_offset_minutes is None
        &&& self.user_interface_theme is None
        &&& self.main_app_web_info is None
        &&& self.time_zone is None
    }

    pub open spec fn is_default(&self) -> bool {
        self.is_default_but_visitor() && self.visitor_data is None
    }

    /// The default client with the given visitor data.
    pub fn with_visitor(visitor_data: Option<String>) -> (r: Self)
        ensures
            r.is_default_but_visitor(),
            r.visitor_data == visitor_data,
    {
        Client {
            hl: None,
            gl: None,
            remote_host: None,
            device_make: None,
            device_model: None,
            visitor_data,
            user_agent: None,
            client_name: "WEB",
            client_version: "2.0000011",
            os_name: None,
            os_version: None,
            original_url: None,
            platform: None,
            client_form_factor: None,
            config_info: None,
            browser_name: None,
            browser_version: None,
            accept_header: None,
            device_experiment_id: None,
            screen_width_points: None,
            screen_height_points: None,
            screen_pixel_density: None,
            screen_density_float: None,
            utc_offset_minutes: None,
            user_interface_theme: None,
            main_app_web_info: None,
            time_zone: None,
        }
    }
}

impl Default for Client {
    fn default() -> (r: Self)
        ensures
            r.is_default(),
    {
        Client::with_visitor(None)
    }
}

impl User {
    pub open spec fn is_default(&self) -> bool {
        self.locked_safety_mode is None
    }
}

impl Default for User {
    fn default() -> (r: Self)
        ensures
            r.is_default(),
    {
        User { locked_safety_mode: None }
    }
}

impl Request {
    pub open spec fn is_default(&self) -> bool {
        &&& self.use_ssl is None
        &&& self.internal_experiment_flags is None
        &&& self.consistency_token_jars is None
    }
}

impl Default for Request {
    fn default() -> (r: Self)
        ensures
            r.is_default(),
    {
        Request { use_ssl: None, internal_experiment_flags: None, consistency_token_jars: None }
    }
}

impl AdSignalsInfo {
    pub open spec fn is_default(&self) -> bool {
        self.params is None
    }
}

impl Default for AdSignalsInfo {
    fn default() -> (r: Self)
        ensures
            r.is_default(),
    {
        AdSignalsInfo { params: None }
    }
}

impl Context {
    /// The client is the default one but for its visitor data, and nothing
    /// else is set.
    pub open spec fn is_default_but_visitor(&self) -> bool {
        &&& self.client.is_default_but_visitor()
        &&& self.user is None
        &&& self.request is None
        &&& self.ad_signals_info is None
    }

    pub open spec fn is_default(&self) -> bool {
        self.is_default_but_visitor() && self.client.visitor_data is None
    }

    /// The default context with the given visitor data.
    pub fn with_visitor(visitor_data: Option<String>) -> (r: Self)
        ensures
            r.is_default_but_visitor(),
            r.client.visitor_data == visitor_data,
    {
        Context {
            client: Client::with_visitor(visitor_data),
            user: None,
            request: None,
            ad_signals_info: None,
        }
    }
}

impl Default for Context {
    fn default() -> (r: Self)
        ensures
            r.is_default(),
    {
        Context::with_visitor(None)
    }
}

impl PlaybackContext {
    pub open spec fn is_default(&self) -> bool {
        self.vis is None && self.lact_milliseconds is None
    }
}

impl Default for PlaybackContext {
    fn default() -> (r: Self)
        ensures
            r.is_default(),
    {
        PlaybackContext { vis: None, lact_milliseconds: None }
    }
}

impl NextRequest {
    /// Nothing but the video is set, and the context is the default one.
    pub open spec fn is_plain(&self) -> bool {
        &&& self.context.is_default()
        &&& self.racy_check_ok is None
        &&& self.content_check_ok is None
        &&& self.autonav_state is None
        &&& self.playback_context is None
        &&& self.captions_requested is None
    }

    pub open spec fn is_default(&self) -> bool {
        self.is_plain() && self.video_id@.len() == 0
    }

    /// The request for what is recommended beside the video `video_id`.
    pub fn for_video(video_id: String) -> (r: Self)
        ensures
            r.is_plain(),
            r.video_id == video_id,
    {
        NextRequest {
            context: Context::default(),
            video_id,
            racy_check_ok: None,
            content_check_ok: None,
            autonav_state: None,
            playback_context: None,
            captions_requested: None,
        }
    }
}

impl Default for NextRequest {
    fn default() -> (r: Self)
        ensures
            r.is_default(),
    {
        NextRequest::for_video(String::new())
    }
}

impl SearchRequest {
    /// Nothing but the query and its parameters is set, and the context is
    /// the default one.
    pub open spec fn is_plain(&self) -> bool {
        self.context.is_default() && self.web_searchbox_stats_url is None
    }

    pub open spec fn is_default(&self) -> bool {
        self.is_plain() && self.query@.len() == 0 && self.params is None
    }

    /// The search for `query`.
    pub fn for_query(query: String, params: Option<String>) -> (r: Self)
        ensures
            r.is_plain(),
            r.query == query,
            r.params == params,
    {
        SearchRequest { context: Context::default(), query, params, web_searchbox_stats_url: None }
    }
}

impl Default for SearchRequest {
    fn default() -> (r: Self)
        ensures
            r.is_default(),
    {
        SearchRequest::for_query(String::new(), None)
    }
}

/// The text of an optional string.
pub open spec fn text_of(s: Option<String>) -> Option<Seq<char>> {
    match s {
        Some(text) => Some(text@),
        None => None,
    }
}

/// The first cookie at or after `from` that names the visitor.
pub open spec fn visitor_cookie(cookies: Seq<String>, from: int) -> Option<int>
    decreases cookies.len() - from,
{
    if from < 0 || from >= cookies.len() {
        None
    } else if contains(cookies[from]@, "__Secure-YEC"@) {
        Some(from)
    } else {
        visitor_cookie(cookies, from + 1)
    }
}

/// The last field of a cookie, where fields are parted by tabs: its value.
pub open spec fn cookie_value(cookie: Seq<char>) -> Seq<char> {
    match last_index_of(cookie, '\t', cookie.len() as int) {
        Some(at) => cookie.subrange(at + 1, cookie.len() as int),
        None => cookie,
    }
}

/// The visitor data that a list of cookies holds: the value of the first
/// cookie that names the visitor.
pub open spec fn visitor_data(cookies: Seq<String>) -> Option<Seq<char>> {
    match visitor_cookie(cookies, 0) {
        Some(at) => Some(cookie_value(cookies[at]@)),
        None => None,
    }
}

/// The visitor data that `cookies` hold.
pub fn visitor_data_of(cookies: &Vec<String>) -> (r: Option<String>)
    ensures
        text_of(r) == visitor_data(cookies@),
{
    let name = chars_of("__Secure-YEC");
    let mut i: usize = 0;
    while i < cookies.len()
        invariant
            i <= cookies.len(),
            name@ == "__Secure-YEC"@,
            visitor_cookie(cookies@, 0) == visitor_cookie(cookies@, i as int),
        decreases cookies.len() - i,
    {
        let cookie = chars_of(cookies[i].as_str());
        if find(&cookie, &name, 0).is_some() {
            let value = match rfind_char(&cookie, '\t', cookie.len()) {
                Some(at) => string_of_range(&cookie, at + 1, cookie.len()),
                None => {
                    string_of_range(&cookie, 0, cookie.len())
                },
            };
            return Some(value);
        }
        i += 1;
    }
    None
}

impl BrowseRequest {
    /// Nothing is set, and the context is the default one but for its
    /// visitor data.
    pub open spec fn is_empty_but_visitor(&self) -> bool {
        &&& self.context.is_default_but_visitor()
        &&& self.continuation is None
        &&& self.browse_id is None
        &&& self.inline_setting_status is None
        &&& self.params is None
        &&& self.video_id is None
        &&& self.language_code is None
    }

    pub open spec fn is_default(&self) -> bool {
        self.is_empty_but_visitor() && self.context.client.visitor_data is None
    }

    /// This request holds what is given and nothing else: its context is
    /// the default one but for the visitor data.
    pub open spec fn carries(
        &self,
        visitor: Option<Seq<char>>,
        continuation: Option<String>,
        browse_id: Option<String>,
        params: Option<String>,
        video_id: Option<String>,
    ) -> bool {
        &&& self.context.is_default_but_visitor()
        &&& text_of(self.context.client.visitor_data) == visitor
        &&& self.continuation == continuation
        &&& self.browse_id == browse_id
        &&& self.inline_setting_status is None
        &&& self.params == params
        &&& self.video_id == video_id
        &&& self.language_code is None
    }

    /// The empty request with the given visitor data.
    pub fn with_visitor(visitor_data: Option<String>) -> (r: Self)
        ensures
            r.is_empty_but_visitor(),
            r.context.client.visitor_data == visitor_data,
    {
        BrowseRequest::build(visitor_data, None, None, None, None)
    }

    /// The request that holds what is given and nothing else.
    pub fn build(
        visitor_data: Option<String>,
        continuation: Option<String>,
        browse_id: Option<String>,
        params: Option<String>,
        video_id: Option<String>,
    ) -> (r: Self)
        ensures
            r.carries(text_of(visitor_data), continuation, browse_id, params, video_id),
            r.context.client.visitor_data == visitor_data,
    {
        BrowseRequest {
            context: Context::with_visitor(visitor_data),
            continuation,
            browse_id,
            inline_setting_status: None,
            params,
            video_id,
            language_code: None,
        }
    }

    /// The empty request of the visitor that `cookies` name; `None` when
    /// no cookie names one.
    pub fn new(cookies: &Vec<String>) -> (r: Option<Self>)
        ensures
            r is Some <==> visitor_data(cookies@) is Some,
            r is Some ==> r->0.carries(visitor_data(cookies@), None, None, None, None),
    {
        match visitor_data_of(cookies) {
            Some(data) => Some(BrowseRequest::with_visitor(Some(data))),
            None => None,
        }
    }
}

impl Default for BrowseRequest {
    fn default() -> (r: Self)
        ensures
            r.is_default(),
    {
        BrowseRequest::with_visitor(None)
    }
}

} // verus!
