//! Capture of a whole monitor on Windows.
//!
//! The capture method needs care. Capturing through DXGI from a thread that
//! is not DPI aware gives a black picture, so that combination is refused.
//! And a source that is added to a scene starts with the WGC method and is
//! switched to the wanted method afterwards, as a source that starts with
//! another method may stay black.

use crate::data::{with_entry, Entries, ObjectInfo, ObsData, ObsValueView};
use crate::error::ObsError;
use crate::handle::SafeHandle;
use crate::sources::either::{ObsSourceRef, ObsSourceTrait, SourceView};
use crate::sources::linux::{is_built, BuilderView};
use crate::utils::obs_string::ObsString;
use vstd::prelude::*;

verus! {

/// How a display is captured.
#[derive(Clone, Copy, Debug, PartialEq, Eq, Structural)]
pub enum ObsDisplayCaptureMethod {
    /// The engine chooses.
    MethodAuto,
    /// Desktop duplication through DXGI.
    MethodDXGI,
    /// Windows Graphics Capture.
    MethodWgc,
}

impl ObsDisplayCaptureMethod {
    /// The number that the engine knows the method by.
    pub open spec fn number(self) -> i32 {
        match self {
            ObsDisplayCaptureMethod::MethodAuto => 0,
            ObsDisplayCaptureMethod::MethodDXGI => 1,
            ObsDisplayCaptureMethod::MethodWgc => 2,
        }
    }

    /// The number that the engine knows the method by.
    pub fn to_i32(&self) -> (n: i32)
        ensures
            n == self.number(),
    {
        match self {
            ObsDisplayCaptureMethod::MethodAuto => 0,
            ObsDisplayCaptureMethod::MethodDXGI => 1,
            ObsDisplayCaptureMethod::MethodWgc => 2,
        }
    }
}

/// The capture method `method` cannot be used from the calling thread: it is
/// DXGI, and the thread is not DPI aware.
pub open spec fn method_is_refused(thread_dpi_unaware: bool, method: ObsDisplayCaptureMethod)
    -> bool {
    thread_dpi_unaware && method == ObsDisplayCaptureMethod::MethodDXGI
}

/// The settings `settings` with the capture method `method`.
pub open spec fn with_method(settings: Entries, method: ObsDisplayCaptureMethod) -> Entries {
    with_entry(settings, "method"@, ObsValueView::Int(method.number() as i64))
}

/// A monitor capture source of the engine.
#[derive(Debug)]
pub struct MonitorCaptureSource {
    source: ObsSourceRef,
}

impl ObsSourceTrait for MonitorCaptureSource {
    closed spec fn source_view(&self) -> SourceView {
        self.source.source_view()
    }

    fn name(&self) -> (name: ObsString) {
        self.source.name()
    }

    fn as_ptr(&self) -> (handle: SafeHandle) {
        self.source.as_ptr()
    }

    fn settings(&self) -> (settings: ObsData) {
        self.source.settings()
    }

    fn hotkey_data(&self) -> (hotkey_data: ObsData) {
        self.source.hotkey_data()
    }

    fn __internal_replace_settings(&mut self, settings: ObsData) {
        self.source.__internal_replace_settings(settings)
    }

    fn __internal_replace_hotkey_data(&mut self, hotkey_data: ObsData) {
        self.source.__internal_replace_hotkey_data(hotkey_data)
    }
}

impl MonitorCaptureSource {
    /// An updater for the source, without changes so far.
    pub fn create_updater(&self) -> (updater: MonitorCaptureSourceUpdater)
        ensures
            updater@ == Seq::<(Seq<char>, ObsValueView)>::empty(),
    {
        MonitorCaptureSourceUpdater { settings: ObsData::new() }
    }
}

/// Changes to the settings of a monitor capture source that exists.
#[derive(Debug)]
pub struct MonitorCaptureSourceUpdater {
    settings: ObsData,
}

impl View for MonitorCaptureSourceUpdater {
    type V = Entries;

    closed spec fn view(&self) -> Entries {
        self.settings@
    }
}

impl MonitorCaptureSourceUpdater {
    /// Chooses the monitor, by the name that the system gives it.
    pub fn set_monitor(self, monitor_name: &str) -> (updater: MonitorCaptureSourceUpdater)
        ensures
            updater@ == with_entry(self@, "monitor_id"@, ObsValueView::Text(monitor_name@)),
    {
        self.set_monitor_id_raw(monitor_name)
    }

    /// Chooses the monitor, by its identifier.
    pub fn set_monitor_id_raw(self, monitor_id: &str) -> (updater: MonitorCaptureSourceUpdater)
        ensures
            updater@ == with_entry(self@, "monitor_id"@, ObsValueView::Text(monitor_id@)),
    {
        let mut updater = self;
        updater.settings.set_string("monitor_id", monitor_id);
        updater
    }

    /// Says whether the cursor is captured.
    pub fn set_capture_cursor(self, capture_cursor: bool) -> (updater:
        MonitorCaptureSourceUpdater)
        ensures
            updater@ == with_entry(self@, "capture_cursor"@, ObsValueView::Bool(capture_cursor)),
    {
        let mut updater = self;
        updater.settings.set_bool("capture_cursor", capture_cursor);
        updater
    }

    /// Switches the compatibility mode on or off.
    pub fn set_compatibility(self, compatibility: bool) -> (updater: MonitorCaptureSourceUpdater)
        ensures
            updater@ == with_entry(self@, "compatibility"@, ObsValueView::Bool(compatibility)),
    {
        let mut updater = self;
        updater.settings.set_bool("compatibility", compatibility);
        updater
    }

    /// Says whether the capture is forced into standard dynamic range.
    pub fn set_force_sdr(self, force_sdr: bool) -> (updater: MonitorCaptureSourceUpdater)
        ensures
            updater@ == with_entry(self@, "force_sdr"@, ObsValueView::Bool(force_sdr)),
    {
        let mut updater = self;
        updater.settings.set_bool("force_sdr", force_sdr);
        updater
    }

    /// Chooses the capture method. `thread_dpi_unaware` says whether the
    /// thread that runs the engine is unaware of DPI scaling; DXGI from such
    /// a thread is refused.
    pub fn set_capture_method(self, method: ObsDisplayCaptureMethod, thread_dpi_unaware: bool) -> (r:
        Result<MonitorCaptureSourceUpdater, ObsError>)
        ensures
            match r {
                Ok(updater) => !method_is_refused(thread_dpi_unaware, method) && updater@
                    == with_method(self@, method),
                Err(e) => method_is_refused(thread_dpi_unaware, method) && e
                    == ObsError::InvalidOperation,
            },
    {
        if thread_dpi_unaware && method == ObsDisplayCaptureMethod::MethodDXGI {
            return Err(ObsError::InvalidOperation);
        }
        let mut updater = self;
        updater.settings.set_int("method", method.to_i32() as i64);
        Ok(updater)
    }

    /// The changes, to be handed to the engine.
    pub fn update(self) -> (changes: ObsData)
        ensures
            changes@ == self@,
    {
        self.settings
    }
}

/// The builder of a monitor capture source.
#[derive(Debug)]
pub struct MonitorCaptureSourceBuilder {
    name: ObsString,
    settings: ObsData,
    hotkeys: ObsData,
    capture_method: Option<ObsDisplayCaptureMethod>,
}

/// A monitor capture builder as the contracts see it.
pub struct MonitorBuilderView {
    /// The name that the source will have.
    pub name: Seq<char>,
    /// The settings that the source will be made with.
    pub settings: Entries,
    /// The hotkeys that the source will be made with.
    pub hotkeys: Entries,
    /// The capture method that was asked for.
    pub capture_method: Option<ObsDisplayCaptureMethod>,
}

impl MonitorBuilderView {
    /// The builder with `value` set under the name `key`.
    pub open spec fn with(self, key: Seq<char>, value: ObsValueView) -> MonitorBuilderView {
        MonitorBuilderView { settings: with_entry(self.settings, key, value), ..self }
    }

    /// The capture method that was asked for cannot be used from the calling
    /// thread.
    pub open spec fn is_refused(self, thread_dpi_unaware: bool) -> bool {
        self.capture_method matches Some(method) && method_is_refused(thread_dpi_unaware, method)
    }
}

/// What is to be done to put a monitor capture source into a scene.
#[derive(Debug)]
pub struct ScenePlan {
    /// What the source is made from: its settings start with the WGC method.
    pub info: ObjectInfo,
    /// The method to switch the source to once it is in the scene, where one
    /// was asked for.
    pub then_method: Option<ObsDisplayCaptureMethod>,
}

impl View for MonitorCaptureSourceBuilder {
    type V = MonitorBuilderView;

    closed spec fn view(&self) -> MonitorBuilderView {
        MonitorBuilderView {
            name: self.name@,
            settings: self.settings@,
            hotkeys: self.hotkeys@,
            capture_method: self.capture_method,
        }
    }
}

impl MonitorCaptureSourceBuilder {
    /// A builder for a source named `name`, without settings.
    pub fn new(name: &str) -> (builder: MonitorCaptureSourceBuilder)
        ensures
            builder@ == (MonitorBuilderView {
                name: name@,
                settings: Seq::empty(),
                hotkeys: Seq::empty(),
                capture_method: None,
            }),
    {
        MonitorCaptureSourceBuilder {
            name: ObsString::new(name),
            settings: ObsData::new(),
            hotkeys: ObsData::new(),
            capture_method: None,
        }
    }

    /// The kind of source that the builder stands for.
    pub fn get_id() -> (id: ObsString)
        ensures
            id@ == "monitor_capture"@,
    {
        ObsString::new("monitor_capture")
    }

    /// The name that the source will have.
    pub fn get_name(&self) -> (name: ObsString)
        ensures
            name@ == self@.name,
    {
        ObsString::new(self.name.as_str())
    }

    /// The settings collected so far.
    pub fn get_settings(&self) -> (settings: &ObsData)
        ensures
            settings@ == self@.settings,
    {
        &self.settings
    }

    /// The settings collected so far, to be changed in place.
    pub fn get_settings_updater(&mut self) -> (settings: &mut ObsData)
        ensures
            settings@ == old(self)@.settings,
            final(self)@ == (MonitorBuilderView { settings: final(settings)@, ..old(self)@ }),
    {
        &mut self.settings
    }

    /// The hotkeys collected so far.
    pub fn get_hotkeys(&self) -> (hotkeys: &ObsData)
        ensures
            hotkeys@ == self@.hotkeys,
    {
        &self.hotkeys
    }

    /// The hotkeys collected so far, to be changed in place.
    pub fn get_hotkeys_updater(&mut self) -> (hotkeys: &mut ObsData)
        ensures
            hotkeys@ == old(self)@.hotkeys,
            final(self)@ == (MonitorBuilderView { hotkeys: final(hotkeys)@, ..old(self)@ }),
    {
        &mut self.hotkeys
    }

    /// Chooses the monitor, by the name that the system gives it.
    pub fn set_monitor(self, monitor_name: &str) -> (builder: MonitorCaptureSourceBuilder)
        ensures
            builder@ == self@.with("monitor_id"@, ObsValueView::Text(monitor_name@)),
    {
        self.set_monitor_id_raw(monitor_name)
    }

    /// Chooses the monitor, by its identifier.
    pub fn set_monitor_id_raw(self, monitor_id: &str) -> (builder: MonitorCaptureSourceBuilder)
        ensures
            builder@ == self@.with("monitor_id"@, ObsValueView::Text(monitor_id@)),
    {
        let mut builder = self;
        builder.settings.set_string("monitor_id", monitor_id);
        builder
    }

    /// Says whether the cursor is captured.
    pub fn set_capture_cursor(self, capture_cursor: bool) -> (builder:
        MonitorCaptureSourceBuilder)
        ensures
            builder@ == self@.with("capture_cursor"@, ObsValueView::Bool(capture_cursor)),
    {
        let mut builder = self;
        builder.settings.set_bool("capture_cursor", capture_cursor);
        builder
    }

    /// Switches the compatibility mode on or off.
    pub fn set_compatibility(self, compatibility: bool) -> (builder: MonitorCaptureSourceBuilder)
        ensures
            builder@ == self@.with("compatibility"@, ObsValueView::Bool(compatibility)),
    {
        let mut builder = self;
        builder.settings.set_bool("compatibility", compatibility);
        builder
    }

    /// Says whether the capture is forced into standard dynamic range.
    pub fn set_force_sdr(self, force_sdr: bool) -> (builder: MonitorCaptureSourceBuilder)
        ensures
            builder@ == self@.with("force_sdr"@, ObsValueView::Bool(force_sdr)),
    {
        let mut builder = self;
        builder.settings.set_bool("force_sdr", force_sdr);
        builder
    }

    /// Asks for a capture method. The method is kept beside the settings and
    /// checked when the source is built. DXGI needs a DPI aware application.
    pub fn set_capture_method(self, method: ObsDisplayCaptureMethod) -> (builder:
        MonitorCaptureSourceBuilder)
        ensures
            builder@ == (MonitorBuilderView { capture_method: Some(method), ..self@ }),
    {
        let mut builder = self;
        builder.capture_method = Some(method);
        builder
    }

    fn is_refused(&self, thread_dpi_unaware: bool) -> (refused: bool)
        ensures
            refused == self@.is_refused(thread_dpi_unaware),
    {
        match self.capture_method {
            Some(method) => thread_dpi_unaware && method == ObsDisplayCaptureMethod::MethodDXGI,
            None => false,
        }
    }

    /// What the source is made from, unless the capture method that was
    /// asked for cannot be used from a thread that is `thread_dpi_unaware`.
    pub fn object_build(&self, thread_dpi_unaware: bool) -> (r: Result<ObjectInfo, ObsError>)
        ensures
            match r {
                Ok(info) => {
                    &&& !self@.is_refused(thread_dpi_unaware)
                    &&& info.id@ == "monitor_capture"@
                    &&& info.name@ == self@.name
                    &&& info.settings@ == self@.settings
                },
                Err(e) => self@.is_refused(thread_dpi_unaware) && e == ObsError::InvalidOperation,
            },
    {
        if self.is_refused(thread_dpi_unaware) {
            return Err(ObsError::InvalidOperation);
        }
        Ok(
            ObjectInfo {
                id: Self::get_id(),
                name: self.get_name(),
                settings: self.settings.duplicate(),
            },
        )
    }

    /// The source, given the engine's answer to the request to make it. A
    /// capture method that cannot be used from the calling thread is refused
    /// whatever the engine answered.
    pub fn build(self, thread_dpi_unaware: bool, created: Result<SafeHandle, ObsError>) -> (r:
        Result<MonitorCaptureSource, ObsError>)
        ensures
            if self@.is_refused(thread_dpi_unaware) {
                r matches Err(e) && e == ObsError::InvalidOperation
            } else {
                is_built(
                    r,
                    (BuilderView {
                        name: self@.name,
                        settings: self@.settings,
                        hotkeys: self@.hotkeys,
                    }).built(created),
                )
            },
    {
        if self.is_refused(thread_dpi_unaware) {
            return Err(ObsError::InvalidOperation);
        }
        match ObsSourceRef::new(&self.name, self.settings, self.hotkeys, created) {
            Ok(source) => Ok(MonitorCaptureSource { source }),
            Err(e) => Err(e),
        }
    }

    /// What is to be done to put the source into a scene: the source is made
    /// with the WGC method, and switched to the method that was asked for
    /// once it is in the scene. A method that cannot be used from the
    /// calling thread is refused before anything is made.
    pub fn add_to_scene(self, thread_dpi_unaware: bool) -> (r: Result<ScenePlan, ObsError>)
        ensures
            match r {
                Ok(plan) => {
                    &&& !self@.is_refused(thread_dpi_unaware)
                    &&& plan.info.id@ == "monitor_capture"@
                    &&& plan.info.name@ == self@.name
                    &&& plan.info.settings@ == with_method(
                        self@.settings,
                        ObsDisplayCaptureMethod::MethodWgc,
                    )
                    &&& plan.then_method == self@.capture_method
                },
                Err(e) => self@.is_refused(thread_dpi_unaware) && e == ObsError::InvalidOperation,
            },
    {
        if self.is_refused(thread_dpi_unaware) {
            return Err(ObsError::InvalidOperation);
        }
        let then_method = self.capture_method;
        let mut settings = self.settings;
        settings.set_int("method", ObsDisplayCaptureMethod::MethodWgc.to_i32() as i64);
        Ok(ScenePlan { info: ObjectInfo { id: Self::get_id(), name: self.name, settings }, then_method })
    }
}

/// A source that went into a scene can be switched to the method that was
/// asked for: the method that the plan names is never refused by the updater
/// on the same thread.
pub proof fn lemma_planned_method_is_accepted(
    builder: MonitorBuilderView,
    thread_dpi_unaware: bool,
    method: ObsDisplayCaptureMethod,
)
    requires
        !builder.is_refused(thread_dpi_unaware),
        builder.capture_method == Some(method),
    ensures
        !method_is_refused(thread_dpi_unaware, method),
{
}

} // verus!
