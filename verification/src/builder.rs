//! What a webview is made with: its label and its attributes, set one by one, and the
//! script that tells the script side which windows there are.

use std::path::PathBuf;
use tauri_utils::config::WebviewUrl;
use vstd::prelude::*;
use crate::json::{json_error_message, json_string_list, to_json_list, JsonError};
use crate::text::{text_of, texts};

verus! {

/// `tauri_utils::config::WebviewUrl`, what a webview is to load, carried through as
/// it is.
#[verifier::external_type_specification]
#[verifier::external_body]
pub struct ExWebviewUrl(WebviewUrl);

/// The attributes of a webview.
#[derive(Debug)]
pub struct WebviewAttributes {
    /// What the webview loads.
    pub url: WebviewUrl,
    /// The user agent, where it is not the platform's own.
    pub user_agent: Option<String>,
    /// The scripts to run before a page's own scripts.
    pub initialization_scripts: Vec<String>,
    /// The data directory, where it is not the platform's own.
    pub data_directory: Option<PathBuf>,
    /// Whether the host handles files dropped on the webview.
    pub file_drop_handler_enabled: bool,
    /// Whether pages may use the clipboard.
    pub clipboard: bool,
    /// Whether a click on an inactive window also reaches the webview.
    pub accept_first_mouse: bool,
    /// Further arguments for the browser.
    pub additional_browser_args: Option<String>,
    /// Whether the webview keeps nothing of the session.
    pub incognito: bool,
}

/// The attributes as a value of the model.
pub struct AttributesView {
    pub url: WebviewUrl,
    pub user_agent: Option<Seq<char>>,
    pub initialization_scripts: Seq<Seq<char>>,
    pub data_directory: Option<PathBuf>,
    pub file_drop_handler_enabled: bool,
    pub clipboard: bool,
    pub accept_first_mouse: bool,
    pub additional_browser_args: Option<Seq<char>>,
    pub incognito: bool,
}

impl View for WebviewAttributes {
    type V = AttributesView;

    open spec fn view(&self) -> AttributesView {
        AttributesView {
            url: self.url,
            user_agent: text_of(self.user_agent),
            initialization_scripts: texts(self.initialization_scripts@),
            data_directory: self.data_directory,
            file_drop_handler_enabled: self.file_drop_handler_enabled,
            clipboard: self.clipboard,
            accept_first_mouse: self.accept_first_mouse,
            additional_browser_args: text_of(self.additional_browser_args),
            incognito: self.incognito,
        }
    }
}

/// The attributes of a webview that loads `url`, with nothing else set: the platform's
/// user agent and data directory, no script, the file drop handler on, the clipboard
/// closed.
pub open spec fn unset_attributes(url: WebviewUrl) -> AttributesView {
    AttributesView {
        url,
        user_agent: None,
        initialization_scripts: Seq::empty(),
        data_directory: None,
        file_drop_handler_enabled: true,
        clipboard: false,
        accept_first_mouse: false,
        additional_browser_args: None,
        incognito: false,
    }
}

impl WebviewAttributes {
    /// The attributes of a webview that loads `url`, with nothing else set.
    pub fn new(url: WebviewUrl) -> (attributes: Self)
        ensures
            attributes@ == unset_attributes(url),
    {
        let attributes = WebviewAttributes {
            url,
            user_agent: None,
            initialization_scripts: Vec::new(),
            data_directory: None,
            file_drop_handler_enabled: true,
            clipboard: false,
            accept_first_mouse: false,
            additional_browser_args: None,
            incognito: false,
        };
        assert(attributes@.initialization_scripts =~= Seq::empty());
        attributes
    }
}

/// A builder for a webview.
#[derive(Debug)]
pub struct WebviewBuilder {
    /// The label of the webview to make.
    pub label: String,
    /// The attributes of the webview to make.
    pub webview_attributes: WebviewAttributes,
}

/// A builder as a value of the model.
pub struct BuilderView {
    pub label: Seq<char>,
    pub attributes: AttributesView,
}

impl View for WebviewBuilder {
    type V = BuilderView;

    open spec fn view(&self) -> BuilderView {
        BuilderView { label: self.label@, attributes: self.webview_attributes@ }
    }
}

impl WebviewBuilder {
    /// A builder for the webview `label` that loads `url`.
    pub fn new(label: String, url: WebviewUrl) -> (builder: Self)
        ensures
            builder@ == (BuilderView { label: label@, attributes: unset_attributes(url) }),
    {
        WebviewBuilder { label, webview_attributes: WebviewAttributes::new(url) }
    }

    /// Sets whether a click on an inactive window also reaches the webview.
    pub fn accept_first_mouse(self, accept: bool) -> (builder: Self)
        ensures
            builder@ == (BuilderView {
                attributes: AttributesView { accept_first_mouse: accept, ..self@.attributes },
                ..self@
            }),
    {
        let mut builder = self;
        builder.webview_attributes.accept_first_mouse = accept;
        builder
    }

    /// Adds a script to run before a page's own scripts, behind those that are there.
    pub fn initialization_script(self, script: &str) -> (builder: Self)
        ensures
            builder@ == (BuilderView {
                attributes: AttributesView {
                    initialization_scripts: self@.attributes.initialization_scripts.push(script@),
                    ..self@.attributes
                },
                ..self@
            }),
    {
        let mut builder = self;
        builder.webview_attributes.initialization_scripts.push(script.to_owned());
        assert(builder@.attributes.initialization_scripts
            =~= self@.attributes.initialization_scripts.push(script@));
        builder
    }

    /// Sets the user agent.
    pub fn user_agent(self, user_agent: &str) -> (builder: Self)
        ensures
            builder@ == (BuilderView {
                attributes: AttributesView { user_agent: Some(user_agent@), ..self@.attributes },
                ..self@
            }),
    {
        let mut builder = self;
        builder.webview_attributes.user_agent = Some(user_agent.to_owned());
        builder
    }

    /// Sets further arguments for the browser.
    pub fn additional_browser_args(self, additional_args: &str) -> (builder: Self)
        ensures
            builder@ == (BuilderView {
                attributes: AttributesView {
                    additional_browser_args: Some(additional_args@),
                    ..self@.attributes
                },
                ..self@
            }),
    {
        let mut builder = self;
        builder.webview_attributes.additional_browser_args = Some(additional_args.to_owned());
        builder
    }

    /// Sets the data directory.
    pub fn data_directory(self, data_directory: PathBuf) -> (builder: Self)
        ensures
            builder@ == (BuilderView {
                attributes: AttributesView {
                    data_directory: Some(data_directory),
                    ..self@.attributes
                },
                ..self@
            }),
    {
        let mut builder = self;
        builder.webview_attributes.data_directory = Some(data_directory);
        builder
    }

    /// Turns the file drop handler off.
    pub fn disable_file_drop_handler(self) -> (builder: Self)
        ensures
            builder@ == (BuilderView {
                attributes: AttributesView {
                    file_drop_handler_enabled: false,
                    ..self@.attributes
                },
                ..self@
            }),
    {
        let mut builder = self;
        builder.webview_attributes.file_drop_handler_enabled = false;
        builder
    }

    /// Opens the clipboard to pages.
    pub fn enable_clipboard_access(self) -> (builder: Self)
        ensures
            builder@ == (BuilderView {
                attributes: AttributesView { clipboard: true, ..self@.attributes },
                ..self@
            }),
    {
        let mut builder = self;
        builder.webview_attributes.clipboard = true;
        builder
    }

    /// Sets whether the webview keeps nothing of the session.
    pub fn incognito(self, incognito: bool) -> (builder: Self)
        ensures
            builder@ == (BuilderView {
                attributes: AttributesView { incognito, ..self@.attributes },
                ..self@
            }),
    {
        let mut builder = self;
        builder.webview_attributes.incognito = incognito;
        builder
    }
}

/// The script that tells the script side which windows there are, given their labels
/// as a JSON array.
pub open spec fn windows_metadata_script(labels: Seq<char>) -> Seq<char> {
    "window.__TAURI_INTERNALS__.metadata.windows = "@ + labels
        + ".map(function (label) { return { label: label } })"@
}

/// The script that tells the script side which windows there are, given their labels
/// as a JSON array.
pub fn metadata_script(labels: &str) -> (script: String)
    ensures
        script@ == windows_metadata_script(labels@),
{
    let mut script = "window.__TAURI_INTERNALS__.metadata.windows = ".to_owned();
    script.append(labels);
    script.append(".map(function (label) { return { label: label } })");
    script
}

/// The script for the labels as they came out of the serializer: the script where
/// they could be written, and the serializer's reason where they could not.
pub fn metadata_script_of(labels: Result<String, String>) -> (script: Result<String, JsonError>)
    ensures
        match labels {
            Ok(json) => script matches Ok(text) && text@ == windows_metadata_script(json@),
            Err(reason) => script matches Err(error) && error.message@ == reason@,
        },
{
    match labels {
        Ok(json) => Ok(metadata_script(json.as_str())),
        Err(reason) => Err(JsonError { message: reason }),
    }
}

/// The script that tells the script side that these are the windows: the script with
/// the labels as a JSON array where they can be written as one, and an error exactly
/// where they cannot.
pub fn window_labels_script(labels: &Vec<String>) -> (script: Result<String, JsonError>)
    ensures
        match json_string_list(texts(labels@)) {
            Some(json) => script matches Ok(text) && text@ == windows_metadata_script(json),
            None => script is Err,
        },
{
    let outcome = match to_json_list(labels) {
        Ok(json) => Ok(json),
        Err(error) => Err(json_error_message(&error)),
    };
    metadata_script_of(outcome)
}

} // verus!
