//! One of two: the closed choice between two platform-specific
//! implementations behind one interface.

use crate::data::{Entries, ObsData};
use crate::error::ObsError;
use crate::handle::SafeHandle;
use crate::utils::initialization::PlatformType;
use crate::utils::obs_string::ObsString;
use vstd::prelude::*;

verus! {

/// A value of one of two types.
#[derive(Debug)]
pub enum Either<A, B> {
    Left(A),
    Right(B),
}

/// A source as the contracts see it.
pub struct SourceView {
    /// The name under which the source was made.
    pub name: Seq<char>,
    /// The native object behind the source.
    pub handle: SafeHandle,
    /// The settings that the source was made with.
    pub settings: Entries,
    /// The hotkeys that the source was made with.
    pub hotkey_data: Entries,
}

/// What every source offers.
pub trait ObsSourceTrait {
    /// The source as the contracts see it.
    spec fn source_view(&self) -> SourceView;

    /// The name under which the source was made.
    fn name(&self) -> (name: ObsString)
        ensures
            name@ == self.source_view().name,
    ;

    /// The native object behind the source.
    fn as_ptr(&self) -> (handle: SafeHandle)
        ensures
            handle == self.source_view().handle,
    ;

    /// The settings that the source was made with.
    fn settings(&self) -> (settings: ObsData)
        ensures
            settings@ == self.source_view().settings,
    ;

    /// The hotkeys that the source was made with.
    fn hotkey_data(&self) -> (hotkey_data: ObsData)
        ensures
            hotkey_data@ == self.source_view().hotkey_data,
    ;

    /// Records the settings that the engine now holds for the source.
    fn __internal_replace_settings(&mut self, settings: ObsData)
        ensures
            final(self).source_view() == (SourceView {
                settings: settings@,
                ..old(self).source_view()
            }),
    ;

    /// Records the hotkeys that the engine now holds for the source.
    fn __internal_replace_hotkey_data(&mut self, hotkey_data: ObsData)
        ensures
            final(self).source_view() == (SourceView {
                hotkey_data: hotkey_data@,
                ..old(self).source_view()
            }),
    ;
}

/// A source of the engine.
#[derive(Debug)]
pub struct ObsSourceRef {
    name: ObsString,
    handle: SafeHandle,
    settings: ObsData,
    hotkey_data: ObsData,
}

impl ObsSourceRef {
    /// The source that the engine made under the name `name` with the
    /// settings `settings` and the hotkeys `hotkey_data`. The engine's answer
    /// decides: its error is passed on, and an answer without an object is
    /// an error of its own.
    pub fn new(
        name: &ObsString,
        settings: ObsData,
        hotkey_data: ObsData,
        created: Result<SafeHandle, ObsError>,
    ) -> (r: Result<ObsSourceRef, ObsError>)
        ensures
            match created {
                Err(e) => r matches Err(f) && f == e,
                Ok(handle) => if handle.spec_addr() == 0 {
                    r matches Err(f) && f == ObsError::NullHandle
                } else {
                    r matches Ok(source) && source.source_view() == (SourceView {
                        name: name@,
                        handle,
                        settings: settings@,
                        hotkey_data: hotkey_data@,
                    })
                },
            },
    {
        match created {
            Err(e) => Err(e),
            Ok(handle) => {
                if handle.is_null() {
                    Err(ObsError::NullHandle)
                } else {
                    Ok(
                        ObsSourceRef {
                            name: ObsString::new(name.as_str()),
                            handle,
                            settings,
                            hotkey_data,
                        },
                    )
                }
            },
        }
    }
}

impl ObsSourceTrait for ObsSourceRef {
    closed spec fn source_view(&self) -> SourceView {
        SourceView {
            name: self.name@,
            handle: self.handle,
            settings: self.settings@,
            hotkey_data: self.hotkey_data@,
        }
    }

    fn name(&self) -> (name: ObsString) {
        ObsString::new(self.name.as_str())
    }

    fn as_ptr(&self) -> (handle: SafeHandle) {
        self.handle
    }

    fn settings(&self) -> (settings: ObsData) {
        self.settings.duplicate()
    }

    fn hotkey_data(&self) -> (hotkey_data: ObsData) {
        self.hotkey_data.duplicate()
    }

    fn __internal_replace_settings(&mut self, settings: ObsData) {
        self.settings = settings;
    }

    fn __internal_replace_hotkey_data(&mut self, hotkey_data: ObsData) {
        self.hotkey_data = hotkey_data;
    }
}

/// A source that captures through PipeWire.
#[derive(Debug)]
pub struct ObsPipeWireSourceRef {
    source: ObsSourceRef,
}

impl ObsPipeWireSourceRef {
    /// The PipeWire source that wraps `source`.
    pub fn new(source: ObsSourceRef) -> (r: ObsPipeWireSourceRef)
        ensures
            r.source_view() == source.source_view(),
    {
        ObsPipeWireSourceRef { source }
    }
}

impl ObsSourceTrait for ObsPipeWireSourceRef {
    closed spec fn source_view(&self) -> SourceView {
        self.source.source_view()
    }

    fn name(&self) -> (name: ObsString) {
        self.source.name()
    }

    fn as_ptr(&self) -> (handle: SafeHandle) {
        self.source.as_ptr()
    }

    fn settings(&self) -> (settings: ObsData) {
        self.source.settings()
    }

    fn hotkey_data(&self) -> (hotkey_data: ObsData) {
        self.source.hotkey_data()
    }

    fn __internal_replace_settings(&mut self, settings: ObsData) {
        self.source.__internal_replace_settings(settings)
    }

    fn __internal_replace_hotkey_data(&mut self, hotkey_data: ObsData) {
        self.source.__internal_replace_hotkey_data(hotkey_data)
    }
}

/// A source that captures one X11 window through XComposite.
#[derive(Debug)]
pub struct XCompositeInputSource {
    source: ObsSourceRef,
}

impl XCompositeInputSource {
    /// The XComposite source that wraps `source`.
    pub fn new(source: ObsSourceRef) -> (r: XCompositeInputSource)
        ensures
            r.source_view() == source.source_view(),
    {
        XCompositeInputSource { source }
    }
}

impl ObsSourceTrait for XCompositeInputSource {
    closed spec fn source_view(&self) -> SourceView {
        self.source.source_view()
    }

    fn name(&self) -> (name: ObsString) {
        self.source.name()
    }

    fn as_ptr(&self) -> (handle: SafeHandle) {
        self.source.as_ptr()
    }

    fn settings(&self) -> (settings: ObsData) {
        self.source.settings()
    }

    fn hotkey_data(&self) -> (hotkey_data: ObsData) {
        self.source.hotkey_data()
    }

    fn __internal_replace_settings(&mut self, settings: ObsData) {
        self.source.__internal_replace_settings(settings)
    }

    fn __internal_replace_hotkey_data(&mut self, hotkey_data: ObsData) {
        self.source.__internal_replace_hotkey_data(hotkey_data)
    }
}

/// A source of one of two kinds: the left kind on X11, the right kind on
/// Wayland. Which one it is was settled when the source was built.
#[derive(Debug)]
pub enum EitherSource<A: ObsSourceTrait, B: ObsSourceTrait> {
    Left(A),
    Right(B),
}

impl<A: ObsSourceTrait, B: ObsSourceTrait> EitherSource<A, B> {
    /// The display server that the source captures from.
    pub fn platform(&self) -> (p: PlatformType)
        ensures
            p == (if self is Left {
                PlatformType::X11
            } else {
                PlatformType::Wayland
            }),
    {
        match self {
            EitherSource::Left(_) => PlatformType::X11,
            EitherSource::Right(_) => PlatformType::Wayland,
        }
    }
}

impl<A: ObsSourceTrait, B: ObsSourceTrait> ObsSourceTrait for EitherSource<A, B> {
    open spec fn source_view(&self) -> SourceView {
        match self {
            EitherSource::Left(a) => a.source_view(),
            EitherSource::Right(b) => b.source_view(),
        }
    }

    fn name(&self) -> (name: ObsString) {
        match self {
            EitherSource::Left(a) => a.name(),
            EitherSource::Right(b) => b.name(),
        }
    }

    fn as_ptr(&self) -> (handle: SafeHandle) {
        match self {
            EitherSource::Left(a) => a.as_ptr(),
            EitherSource::Right(b) => b.as_ptr(),
        }
    }

    fn settings(&self) -> (settings: ObsData) {
        match self {
            EitherSource::Left(a) => a.settings(),
            EitherSource::Right(b) => b.settings(),
        }
    }

    fn hotkey_data(&self) -> (hotkey_data: ObsData) {
        match self {
            EitherSource::Left(a) => a.hotkey_data(),
            EitherSource::Right(b) => b.hotkey_data(),
        }
    }

    fn __internal_replace_settings(&mut self, settings: ObsData) {
        match self {
            EitherSource::Left(a) => a.__internal_replace_settings(settings),
            EitherSource::Right(b) => b.__internal_replace_settings(settings),
        }
    }

    fn __internal_replace_hotkey_data(&mut self, hotkey_data: ObsData) {
        match self {
            EitherSource::Left(a) => a.__internal_replace_hotkey_data(hotkey_data),
            EitherSource::Right(b) => b.__internal_replace_hotkey_data(hotkey_data),
        }
    }
}

} // verus!
