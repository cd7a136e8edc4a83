//! The builders of the capture sources of each display server. Each builder
//! collects a name and the settings that its source understands.

use crate::data::{with_entry, Entries, ObsData, ObsValueView};
use crate::error::ObsError;
use crate::handle::SafeHandle;
use crate::sources::either::{
    ObsPipeWireSourceRef, ObsSourceRef, ObsSourceTrait, SourceView, XCompositeInputSource,
};
use crate::utils::obs_string::ObsString;
use vstd::prelude::*;

verus! {

/// A builder as the contracts see it.
pub struct BuilderView {
    /// The name that the source will have.
    pub name: Seq<char>,
    /// The settings that the source will be made with.
    pub settings: Entries,
    /// The hotkeys that the source will be made with.
    pub hotkeys: Entries,
}

impl BuilderView {
    /// A builder for a source named `name`, without settings or hotkeys.
    pub open spec fn empty(name: Seq<char>) -> BuilderView {
        BuilderView { name, settings: Seq::empty(), hotkeys: Seq::empty() }
    }

    /// The builder with `value` set under the name `key`.
    pub open spec fn with(self, key: Seq<char>, value: ObsValueView) -> BuilderView {
        BuilderView { settings: with_entry(self.settings, key, value), ..self }
    }

    /// The source that the engine makes of the builder, given its answer.
    pub open spec fn built(self, created: Result<SafeHandle, ObsError>) -> Result<
        SourceView,
        ObsError,
    > {
        match created {
            Err(e) => Err(e),
            Ok(handle) => if handle.spec_addr() == 0 {
                Err(ObsError::NullHandle)
            } else {
                Ok(
                    SourceView {
                        name: self.name,
                        handle,
                        settings: self.settings,
                        hotkey_data: self.hotkeys,
                    },
                )
            },
        }
    }
}

/// Whether `r` is the source, or the error, that `expected` describes.
pub open spec fn is_built<S: ObsSourceTrait>(
    r: Result<S, ObsError>,
    expected: Result<SourceView, ObsError>,
) -> bool {
    match expected {
        Ok(view) => r matches Ok(source) && source.source_view() == view,
        Err(e) => r matches Err(f) && f == e,
    }
}

/// A name and settings that are being collected.
#[derive(Debug)]
struct BuilderCore {
    name: ObsString,
    settings: ObsData,
    hotkeys: ObsData,
}

impl BuilderCore {
    spec fn view(&self) -> BuilderView {
        BuilderView { name: self.name@, settings: self.settings@, hotkeys: self.hotkeys@ }
    }

    fn new(name: &str) -> (core: BuilderCore)
        ensures
            core.view() == BuilderView::empty(name@),
    {
        BuilderCore { name: ObsString::new(name), settings: ObsData::new(), hotkeys: ObsData::new() }
    }

    fn set_int(self, key: &str, value: i64) -> (core: BuilderCore)
        ensures
            core.view() == self.view().with(key@, ObsValueView::Int(value)),
    {
        let mut core = self;
        core.settings.set_int(key, value);
        core
    }

    fn set_bool(self, key: &str, value: bool) -> (core: BuilderCore)
        ensures
            core.view() == self.view().with(key@, ObsValueView::Bool(value)),
    {
        let mut core = self;
        core.settings.set_bool(key, value);
        core
    }

    fn set_string(self, key: &str, value: &str) -> (core: BuilderCore)
        ensures
            core.view() == self.view().with(key@, ObsValueView::Text(value@)),
    {
        let mut core = self;
        core.settings.set_string(key, value);
        core
    }

    fn build(self, created: Result<SafeHandle, ObsError>) -> (r: Result<ObsSourceRef, ObsError>)
        ensures
            is_built(r, self.view().built(created)),
    {
        ObsSourceRef::new(&self.name, self.settings, self.hotkeys, created)
    }
}

/// The builder of a source that captures a screen of an X11 server.
#[derive(Debug)]
pub struct X11CaptureSourceBuilder {
    core: BuilderCore,
}

impl View for X11CaptureSourceBuilder {
    type V = BuilderView;

    closed spec fn view(&self) -> BuilderView {
        self.core.view()
    }
}

impl X11CaptureSourceBuilder {
    /// A builder for a source named `name`, without settings.
    pub fn new(name: &str) -> (builder: X11CaptureSourceBuilder)
        ensures
            builder@ == BuilderView::empty(name@),
    {
        X11CaptureSourceBuilder { core: BuilderCore::new(name) }
    }

    /// The name that the source will have.
    pub fn get_name(&self) -> (name: ObsString)
        ensures
            name@ == self@.name,
    {
        ObsString::new(self.core.name.as_str())
    }

    /// The settings collected so far.
    pub fn get_settings(&self) -> (settings: &ObsData)
        ensures
            settings@ == self@.settings,
    {
        &self.core.settings
    }

    /// The settings collected so far, to be changed in place.
    pub fn get_settings_updater(&mut self) -> (settings: &mut ObsData)
        ensures
            settings@ == old(self)@.settings,
            final(self)@ == (BuilderView { settings: final(settings)@, ..old(self)@ }),
    {
        &mut self.core.settings
    }

    /// The hotkeys collected so far.
    pub fn get_hotkeys(&self) -> (hotkeys: &ObsData)
        ensures
            hotkeys@ == self@.hotkeys,
    {
        &self.core.hotkeys
    }

    /// The hotkeys collected so far, to be changed in place.
    pub fn get_hotkeys_updater(&mut self) -> (hotkeys: &mut ObsData)
        ensures
            hotkeys@ == old(self)@.hotkeys,
            final(self)@ == (BuilderView { hotkeys: final(hotkeys)@, ..old(self)@ }),
    {
        &mut self.core.hotkeys
    }

    /// Chooses the screen to capture.
    pub fn set_screen(self, screen: i64) -> (builder: X11CaptureSourceBuilder)
        ensures
            builder@ == self@.with("screen"@, ObsValueView::Int(screen)),
    {
        X11CaptureSourceBuilder { core: self.core.set_int("screen", screen) }
    }

    /// Says whether the cursor is captured.
    pub fn set_show_cursor(self, show: bool) -> (builder: X11CaptureSourceBuilder)
        ensures
            builder@ == self@.with("show_cursor"@, ObsValueView::Bool(show)),
    {
        X11CaptureSourceBuilder { core: self.core.set_bool("show_cursor", show) }
    }

    /// Switches the advanced settings on or off.
    pub fn set_advanced(self, advanced: bool) -> (builder: X11CaptureSourceBuilder)
        ensures
            builder@ == self@.with("advanced"@, ObsValueView::Bool(advanced)),
    {
        X11CaptureSourceBuilder { core: self.core.set_bool("advanced", advanced) }
    }

    /// Names the X server to connect to.
    pub fn set_server(self, server: &str) -> (builder: X11CaptureSourceBuilder)
        ensures
            builder@ == self@.with("server"@, ObsValueView::Text(server@)),
    {
        X11CaptureSourceBuilder { core: self.core.set_string("server", server) }
    }

    /// Crops from the top, in pixels.
    pub fn set_cut_top(self, cut_top: i64) -> (builder: X11CaptureSourceBuilder)
        ensures
            builder@ == self@.with("cut_top"@, ObsValueView::Int(cut_top)),
    {
        X11CaptureSourceBuilder { core: self.core.set_int("cut_top", cut_top) }
    }

    /// Crops from the left, in pixels.
    pub fn set_cut_left(self, cut_left: i64) -> (builder: X11CaptureSourceBuilder)
        ensures
            builder@ == self@.with("cut_left"@, ObsValueView::Int(cut_left)),
    {
        X11CaptureSourceBuilder { core: self.core.set_int("cut_left", cut_left) }
    }

    /// Crops from the right, in pixels.
    pub fn set_cut_right(self, cut_right: i64) -> (builder: X11CaptureSourceBuilder)
        ensures
            builder@ == self@.with("cut_right"@, ObsValueView::Int(cut_right)),
    {
        X11CaptureSourceBuilder { core: self.core.set_int("cut_right", cut_right) }
    }

    /// Crops from the bottom, in pixels.
    pub fn set_cut_bot(self, cut_bot: i64) -> (builder: X11CaptureSourceBuilder)
        ensures
            builder@ == self@.with("cut_bot"@, ObsValueView::Int(cut_bot)),
    {
        X11CaptureSourceBuilder { core: self.core.set_int("cut_bot", cut_bot) }
    }

    /// The source, given the engine's answer to the request to make it.
    pub fn build(self, created: Result<SafeHandle, ObsError>) -> (r: Result<
        ObsSourceRef,
        ObsError,
    >)
        ensures
            is_built(r, self@.built(created)),
    {
        self.core.build(created)
    }
}

/// The builder of a source that captures a screen through PipeWire.
#[derive(Debug)]
pub struct PipeWireScreenCaptureSourceBuilder {
    core: BuilderCore,
}

impl View for PipeWireScreenCaptureSourceBuilder {
    type V = BuilderView;

    closed spec fn view(&self) -> BuilderView {
        self.core.view()
    }
}

impl PipeWireScreenCaptureSourceBuilder {
    /// A builder for a source named `name`, without settings.
    pub fn new(name: &str) -> (builder: PipeWireScreenCaptureSourceBuilder)
        ensures
            builder@ == BuilderView::empty(name@),
    {
        PipeWireScreenCaptureSourceBuilder { core: BuilderCore::new(name) }
    }

    /// The name that the source will have.
    pub fn get_name(&self) -> (name: ObsString)
        ensures
            name@ == self@.name,
    {
        ObsString::new(self.core.name.as_str())
    }

    /// The settings collected so far.
    pub fn get_settings(&self) -> (settings: &ObsData)
        ensures
            settings@ == self@.settings,
    {
        &self.core.settings
    }

    /// The settings collected so far, to be changed in place.
    pub fn get_settings_updater(&mut self) -> (settings: &mut ObsData)
        ensures
            settings@ == old(self)@.settings,
            final(self)@ == (BuilderView { settings: final(settings)@, ..old(self)@ }),
    {
        &mut self.core.settings
    }

    /// The hotkeys collected so far.
    pub fn get_hotkeys(&self) -> (hotkeys: &ObsData)
        ensures
            hotkeys@ == self@.hotkeys,
    {
        &self.core.hotkeys
    }

    /// The hotkeys collected so far, to be changed in place.
    pub fn get_hotkeys_updater(&mut self) -> (hotkeys: &mut ObsData)
        ensures
            hotkeys@ == old(self)@.hotkeys,
            final(self)@ == (BuilderView { hotkeys: final(hotkeys)@, ..old(self)@ }),
    {
        &mut self.core.hotkeys
    }

    /// Hands in the token that restores the user's earlier selection.
    pub fn set_restore_token(self, token: &str) -> (builder: PipeWireScreenCaptureSourceBuilder)
        ensures
            builder@ == self@.with("restore_token"@, ObsValueView::Text(token@)),
    {
        PipeWireScreenCaptureSourceBuilder { core: self.core.set_string("restore_token", token) }
    }

    /// Says whether the cursor is captured.
    pub fn set_show_cursor(self, show: bool) -> (builder: PipeWireScreenCaptureSourceBuilder)
        ensures
            builder@ == self@.with("show_cursor"@, ObsValueView::Bool(show)),
    {
        PipeWireScreenCaptureSourceBuilder { core: self.core.set_bool("show_cursor", show) }
    }

    /// The source, given the engine's answer to the request to make it.
    pub fn build(self, created: Result<SafeHandle, ObsError>) -> (r: Result<
        ObsPipeWireSourceRef,
        ObsError,
    >)
        ensures
            is_built(r, self@.built(created)),
    {
        match self.core.build(created) {
            Ok(source) => Ok(ObsPipeWireSourceRef::new(source)),
            Err(e) => Err(e),
        }
    }
}

/// The builder of a source that captures one window of an X11 server
/// through XComposite.
#[derive(Debug)]
pub struct XCompositeInputSourceBuilder {
    core: BuilderCore,
}

impl View for XCompositeInputSourceBuilder {
    type V = BuilderView;

    closed spec fn view(&self) -> BuilderView {
        self.core.view()
    }
}

impl XCompositeInputSourceBuilder {
    /// A builder for a source named `name`, without settings.
    pub fn new(name: &str) -> (builder: XCompositeInputSourceBuilder)
        ensures
            builder@ == BuilderView::empty(name@),
    {
        XCompositeInputSourceBuilder { core: BuilderCore::new(name) }
    }

    /// The name that the source will have.
    pub fn get_name(&self) -> (name: ObsString)
        ensures
            name@ == self@.name,
    {
        ObsString::new(self.core.name.as_str())
    }

    /// The settings collected so far.
    pub fn get_settings(&self) -> (settings: &ObsData)
        ensures
            settings@ == self@.settings,
    {
        &self.core.settings
    }

    /// The settings collected so far, to be changed in place.
    pub fn get_settings_updater(&mut self) -> (settings: &mut ObsData)
        ensures
            settings@ == old(self)@.settings,
            final(self)@ == (BuilderView { settings: final(settings)@, ..old(self)@ }),
    {
        &mut self.core.settings
    }

    /// The hotkeys collected so far.
    pub fn get_hotkeys(&self) -> (hotkeys: &ObsData)
        ensures
            hotkeys@ == self@.hotkeys,
    {
        &self.core.hotkeys
    }

    /// The hotkeys collected so far, to be changed in place.
    pub fn get_hotkeys_updater(&mut self) -> (hotkeys: &mut ObsData)
        ensures
            hotkeys@ == old(self)@.hotkeys,
            final(self)@ == (BuilderView { hotkeys: final(hotkeys)@, ..old(self)@ }),
    {
        &mut self.core.hotkeys
    }

    /// Chooses the window to capture, by its identifier.
    pub fn set_capture_window(self, capture_window: &str) -> (builder:
        XCompositeInputSourceBuilder)
        ensures
            builder@ == self@.with("capture_window"@, ObsValueView::Text(capture_window@)),
    {
        XCompositeInputSourceBuilder {
            core: self.core.set_string("capture_window", capture_window),
        }
    }

    /// Says whether the cursor is captured.
    pub fn set_show_cursor(self, show: bool) -> (builder: XCompositeInputSourceBuilder)
        ensures
            builder@ == self@.with("show_cursor"@, ObsValueView::Bool(show)),
    {
        XCompositeInputSourceBuilder { core: self.core.set_bool("show_cursor", show) }
    }

    /// Crops from the top, in pixels.
    pub fn set_cut_top(self, cut_top: i64) -> (builder: XCompositeInputSourceBuilder)
        ensures
            builder@ == self@.with("cut_top"@, ObsValueView::Int(cut_top)),
    {
        XCompositeInputSourceBuilder { core: self.core.set_int("cut_top", cut_top) }
    }

    /// Crops from the left, in pixels.
    pub fn set_cut_left(self, cut_left: i64) -> (builder: XCompositeInputSourceBuilder)
        ensures
            builder@ == self@.with("cut_left"@, ObsValueView::Int(cut_left)),
    {
        XCompositeInputSourceBuilder { core: self.core.set_int("cut_left", cut_left) }
    }

    /// Crops from the right, in pixels.
    pub fn set_cut_right(self, cut_right: i64) -> (builder: XCompositeInputSourceBuilder)
        ensures
            builder@ == self@.with("cut_right"@, ObsValueView::Int(cut_right)),
    {
        XCompositeInputSourceBuilder { core: self.core.set_int("cut_right", cut_right) }
    }

    /// Crops from the bottom, in pixels.
    pub fn set_cut_bot(self, cut_bot: i64) -> (builder: XCompositeInputSourceBuilder)
        ensures
            builder@ == self@.with("cut_bot"@, ObsValueView::Int(cut_bot)),
    {
        XCompositeInputSourceBuilder { core: self.core.set_int("cut_bot", cut_bot) }
    }

    /// Says whether the window's border is captured.
    pub fn set_include_border(self, include_border: bool) -> (builder:
        XCompositeInputSourceBuilder)
        ensures
            builder@ == self@.with("include_border"@, ObsValueView::Bool(include_border)),
    {
        XCompositeInputSourceBuilder {
            core: self.core.set_bool("include_border", include_border),
        }
    }

    /// Says whether the window's transparency is dropped.
    pub fn set_exclude_alpha(self, exclude_alpha: bool) -> (builder: XCompositeInputSourceBuilder)
        ensures
            builder@ == self@.with("exclude_alpha"@, ObsValueView::Bool(exclude_alpha)),
    {
        XCompositeInputSourceBuilder { core: self.core.set_bool("exclude_alpha", exclude_alpha) }
    }

    /// The source, given the engine's answer to the request to make it.
    pub fn build(self, created: Result<SafeHandle, ObsError>) -> (r: Result<
        XCompositeInputSource,
        ObsError,
    >)
        ensures
            is_built(r, self@.built(created)),
    {
        match self.core.build(created) {
            Ok(source) => Ok(XCompositeInputSource::new(source)),
            Err(e) => Err(e),
        }
    }
}

/// The builder of a source that captures one window through PipeWire.
#[derive(Debug)]
pub struct PipeWireWindowCaptureSourceBuilder {
    core: BuilderCore,
}

impl View for PipeWireWindowCaptureSourceBuilder {
    type V = BuilderView;

    closed spec fn view(&self) -> BuilderView {
        self.core.view()
    }
}

impl PipeWireWindowCaptureSourceBuilder {
    /// A builder for a source named `name`, without settings.
    pub fn new(name: &str) -> (builder: PipeWireWindowCaptureSourceBuilder)
        ensures
            builder@ == BuilderView::empty(name@),
    {
        PipeWireWindowCaptureSourceBuilder { core: BuilderCore::new(name) }
    }

    /// The name that the source will have.
    pub fn get_name(&self) -> (name: ObsString)
        ensures
            name@ == self@.name,
    {
        ObsString::new(self.core.name.as_str())
    }

    /// The settings collected so far.
    pub fn get_settings(&self) -> (settings: &ObsData)
        ensures
            settings@ == self@.settings,
    {
        &self.core.settings
    }

    /// The settings collected so far, to be changed in place.
    pub fn get_settings_updater(&mut self) -> (settings: &mut ObsData)
        ensures
            settings@ == old(self)@.settings,
            final(self)@ == (BuilderView { settings: final(settings)@, ..old(self)@ }),
    {
        &mut self.core.settings
    }

    /// The hotkeys collected so far.
    pub fn get_hotkeys(&self) -> (hotkeys: &ObsData)
        ensures
            hotkeys@ == self@.hotkeys,
    {
        &self.core.hotkeys
    }

    /// The hotkeys collected so far, to be changed in place.
    pub fn get_hotkeys_updater(&mut self) -> (hotkeys: &mut ObsData)
        ensures
            hotkeys@ == old(self)@.hotkeys,
            final(self)@ == (BuilderView { hotkeys: final(hotkeys)@, ..old(self)@ }),
    {
        &mut self.core.hotkeys
    }

    /// Hands in the token that restores the user's earlier selection.
    pub fn set_restore_token(self, token: &str) -> (builder: PipeWireWindowCaptureSourceBuilder)
        ensures
            builder@ == self@.with("restore_token"@, ObsValueView::Text(token@)),
    {
        PipeWireWindowCaptureSourceBuilder { core: self.core.set_string("restore_token", token) }
    }

    /// Says whether the cursor is captured.
    pub fn set_show_cursor(self, show: bool) -> (builder: PipeWireWindowCaptureSourceBuilder)
        ensures
            builder@ == self@.with("show_cursor"@, ObsValueView::Bool(show)),
    {
        PipeWireWindowCaptureSourceBuilder { core: self.core.set_bool("show_cursor", show) }
    }

    /// The source, given the engine's answer to the request to make it.
    pub fn build(self, created: Result<SafeHandle, ObsError>) -> (r: Result<
        ObsPipeWireSourceRef,
        ObsError,
    >)
        ensures
            is_built(r, self@.built(created)),
    {
        match self.core.build(created) {
            Ok(source) => Ok(ObsPipeWireSourceRef::new(source)),
            Err(e) => Err(e),
        }
    }
}

} // verus!
