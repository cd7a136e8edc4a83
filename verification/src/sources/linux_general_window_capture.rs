//! Window capture on Linux, whatever the display server.
//!
//! As with screen capture, the implementation is chosen once, when the
//! builder is made: XComposite on X11, PipeWire on Wayland. An option that
//! the chosen implementation does not know leaves the builder as it was.

use crate::data::{ObsData, ObsValueView};
use crate::error::ObsError;
use crate::handle::SafeHandle;
use crate::sources::either::{
    Either, EitherSource, ObsPipeWireSourceRef, ObsSourceTrait, XCompositeInputSource,
};
use crate::sources::linux::{
    is_built, BuilderView, PipeWireWindowCaptureSourceBuilder, XCompositeInputSourceBuilder,
};
use crate::sources::linux_general_screen_capture::{
    chosen, on_both, on_pipewire, on_x11, with_hotkeys, with_settings,
};
use crate::utils::initialization::PlatformType;
use crate::utils::obs_string::ObsString;
use vstd::prelude::*;

verus! {

/// The builder of a window capture source for the display server at hand.
#[derive(Debug)]
pub struct LinuxGeneralWindowCaptureBuilder {
    underlying_builder: Either<XCompositeInputSourceBuilder, PipeWireWindowCaptureSourceBuilder>,
}

/// The source that the builder makes: an XComposite source or a PipeWire
/// source.
pub type LinuxGeneralWindowCaptureSourceRef = EitherSource<
    XCompositeInputSource,
    ObsPipeWireSourceRef,
>;

impl View for LinuxGeneralWindowCaptureBuilder {
    type V = Either<BuilderView, BuilderView>;

    closed spec fn view(&self) -> Either<BuilderView, BuilderView> {
        match self.underlying_builder {
            Either::Left(b) => Either::Left(b@),
            Either::Right(b) => Either::Right(b@),
        }
    }
}

impl LinuxGeneralWindowCaptureBuilder {
    /// A builder for a source named `name` on the display server
    /// `platform`: an XComposite builder on X11, a PipeWire builder on
    /// Wayland. Without a display server there is nothing to build for.
    pub fn new(name: &str, platform: PlatformType) -> (r: Result<
        LinuxGeneralWindowCaptureBuilder,
        ObsError,
    >)
        ensures
            match platform {
                PlatformType::X11 => r matches Ok(b) && b@ == Either::<
                    BuilderView,
                    BuilderView,
                >::Left(BuilderView::empty(name@)),
                PlatformType::Wayland => r matches Ok(b) && b@ == Either::<
                    BuilderView,
                    BuilderView,
                >::Right(BuilderView::empty(name@)),
                PlatformType::Invalid => r matches Err(e) && e == ObsError::PlatformUnsupported,
            },
    {
        match platform {
            PlatformType::X11 => Ok(
                LinuxGeneralWindowCaptureBuilder {
                    underlying_builder: Either::Left(XCompositeInputSourceBuilder::new(name)),
                },
            ),
            PlatformType::Wayland => Ok(
                LinuxGeneralWindowCaptureBuilder {
                    underlying_builder: Either::Right(
                        PipeWireWindowCaptureSourceBuilder::new(name),
                    ),
                },
            ),
            PlatformType::Invalid => Err(ObsError::PlatformUnsupported),
        }
    }

    /// The kind of source that the builder stands for.
    pub fn get_id() -> (id: ObsString)
        ensures
            id@ == "linux_general_window_capture"@,
    {
        ObsString::new("linux_general_window_capture")
    }

    /// The name that the source will have.
    pub fn get_name(&self) -> (name: ObsString)
        ensures
            name@ == chosen(self@).name,
    {
        match &self.underlying_builder {
            Either::Left(builder) => builder.get_name(),
            Either::Right(builder) => builder.get_name(),
        }
    }

    /// The settings collected so far.
    pub fn get_settings(&self) -> (settings: &ObsData)
        ensures
            settings@ == chosen(self@).settings,
    {
        match &self.underlying_builder {
            Either::Left(builder) => builder.get_settings(),
            Either::Right(builder) => builder.get_settings(),
        }
    }

    /// The settings collected so far, to be changed in place.
    pub fn get_settings_updater(&mut self) -> (settings: &mut ObsData)
        ensures
            settings@ == chosen(old(self)@).settings,
            final(self)@ == with_settings(old(self)@, final(settings)@),
    {
        match &mut self.underlying_builder {
            Either::Left(builder) => builder.get_settings_updater(),
            Either::Right(builder) => builder.get_settings_updater(),
        }
    }

    /// The hotkeys collected so far.
    pub fn get_hotkeys(&self) -> (hotkeys: &ObsData)
        ensures
            hotkeys@ == chosen(self@).hotkeys,
    {
        match &self.underlying_builder {
            Either::Left(builder) => builder.get_hotkeys(),
            Either::Right(builder) => builder.get_hotkeys(),
        }
    }

    /// The hotkeys collected so far, to be changed in place.
    pub fn get_hotkeys_updater(&mut self) -> (hotkeys: &mut ObsData)
        ensures
            hotkeys@ == chosen(old(self)@).hotkeys,
            final(self)@ == with_hotkeys(old(self)@, final(hotkeys)@),
    {
        match &mut self.underlying_builder {
            Either::Left(builder) => builder.get_hotkeys_updater(),
            Either::Right(builder) => builder.get_hotkeys_updater(),
        }
    }

    /// The source, given the engine's answer to the request to make it: an
    /// XComposite source from an XComposite builder, a PipeWire source from a
    /// PipeWire builder.
    pub fn build(self, created: Result<SafeHandle, ObsError>) -> (r: Result<
        LinuxGeneralWindowCaptureSourceRef,
        ObsError,
    >)
        ensures
            is_built(r, chosen(self@).built(created)),
            r matches Ok(source) ==> (source is Left <==> self@ is Left),
    {
        match self.underlying_builder {
            Either::Left(builder) => match builder.build(created) {
                Ok(source) => Ok(EitherSource::Left(source)),
                Err(e) => Err(e),
            },
            Either::Right(builder) => match builder.build(created) {
                Ok(source) => Ok(EitherSource::Right(source)),
                Err(e) => Err(e),
            },
        }
    }

    /// Hands in the token that restores the user's earlier selection.
    /// PipeWire only.
    pub fn set_restore_token(self, token: &str) -> (builder: LinuxGeneralWindowCaptureBuilder)
        ensures
            builder@ == on_pipewire(self@, "restore_token"@, ObsValueView::Text(token@)),
    {
        let underlying_builder = match self.underlying_builder {
            Either::Left(builder) => Either::Left(builder),
            Either::Right(builder) => Either::Right(builder.set_restore_token(token)),
        };
        LinuxGeneralWindowCaptureBuilder { underlying_builder }
    }

    /// Says whether the cursor is captured. Every display server.
    pub fn set_show_cursor(self, show: bool) -> (builder: LinuxGeneralWindowCaptureBuilder)
        ensures
            builder@ == on_both(self@, "show_cursor"@, ObsValueView::Bool(show)),
    {
        let underlying_builder = match self.underlying_builder {
            Either::Left(builder) => Either::Left(builder.set_show_cursor(show)),
            Either::Right(builder) => Either::Right(builder.set_show_cursor(show)),
        };
        LinuxGeneralWindowCaptureBuilder { underlying_builder }
    }

    /// Chooses the window to capture, by its identifier. XComposite only.
    pub fn set_capture_window(self, capture_window: &str) -> (builder:
        LinuxGeneralWindowCaptureBuilder)
        ensures
            builder@ == on_x11(self@, "capture_window"@, ObsValueView::Text(capture_window@)),
    {
        let underlying_builder = match self.underlying_builder {
            Either::Left(builder) => Either::Left(builder.set_capture_window(capture_window)),
            Either::Right(builder) => Either::Right(builder),
        };
        LinuxGeneralWindowCaptureBuilder { underlying_builder }
    }

    /// Crops from the top, in pixels. XComposite only.
    pub fn set_cut_top(self, cut_top: i64) -> (builder: LinuxGeneralWindowCaptureBuilder)
        ensures
            builder@ == on_x11(self@, "cut_top"@, ObsValueView::Int(cut_top)),
    {
        let underlying_builder = match self.underlying_builder {
            Either::Left(builder) => Either::Left(builder.set_cut_top(cut_top)),
            Either::Right(builder) => Either::Right(builder),
        };
        LinuxGeneralWindowCaptureBuilder { underlying_builder }
    }

    /// Crops from the left, in pixels. XComposite only.
    pub fn set_cut_left(self, cut_left: i64) -> (builder: LinuxGeneralWindowCaptureBuilder)
        ensures
            builder@ == on_x11(self@, "cut_left"@, ObsValueView::Int(cut_left)),
    {
        let underlying_builder = match self.underlying_builder {
            Either::Left(builder) => Either::Left(builder.set_cut_left(cut_left)),
            Either::Right(builder) => Either::Right(builder),
        };
        LinuxGeneralWindowCaptureBuilder { underlying_builder }
    }

    /// Crops from the right, in pixels. XComposite only.
    pub fn set_cut_right(self, cut_right: i64) -> (builder: LinuxGeneralWindowCaptureBuilder)
        ensures
            builder@ == on_x11(self@, "cut_right"@, ObsValueView::Int(cut_right)),
    {
        let underlying_builder = match self.underlying_builder {
            Either::Left(builder) => Either::Left(builder.set_cut_right(cut_right)),
            Either::Right(builder) => Either::Right(builder),
        };
        LinuxGeneralWindowCaptureBuilder { underlying_builder }
    }

    /// Crops from the bottom, in pixels. XComposite only.
    pub fn set_cut_bot(self, cut_bot: i64) -> (builder: LinuxGeneralWindowCaptureBuilder)
        ensures
            builder@ == on_x11(self@, "cut_bot"@, ObsValueView::Int(cut_bot)),
    {
        let underlying_builder = match self.underlying_builder {
            Either::Left(builder) => Either::Left(builder.set_cut_bot(cut_bot)),
            Either::Right(builder) => Either::Right(builder),
        };
        LinuxGeneralWindowCaptureBuilder { underlying_builder }
    }

    /// Says whether the window's border is captured. XComposite only.
    pub fn set_include_border(self, include_border: bool) -> (builder:
        LinuxGeneralWindowCaptureBuilder)
        ensures
            builder@ == on_x11(self@, "include_border"@, ObsValueView::Bool(include_border)),
    {
        let underlying_builder = match self.underlying_builder {
            Either::Left(builder) => Either::Left(builder.set_include_border(include_border)),
            Either::Right(builder) => Either::Right(builder),
        };
        LinuxGeneralWindowCaptureBuilder { underlying_builder }
    }

    /// Says whether the window's transparency is dropped. XComposite only.
    pub fn set_exclude_alpha(self, exclude_alpha: bool) -> (builder:
        LinuxGeneralWindowCaptureBuilder)
        ensures
            builder@ == on_x11(self@, "exclude_alpha"@, ObsValueView::Bool(exclude_alpha)),
    {
        let underlying_builder = match self.underlying_builder {
            Either::Left(builder) => Either::Left(builder.set_exclude_alpha(exclude_alpha)),
            Either::Right(builder) => Either::Right(builder),
        };
        LinuxGeneralWindowCaptureBuilder { underlying_builder }
    }

    /// The display server that the builder was made for.
    pub fn capture_type_name(&self) -> (platform: PlatformType)
        ensures
            platform == (if self@ is Left {
                PlatformType::X11
            } else {
                PlatformType::Wayland
            }),
    {
        match &self.underlying_builder {
            Either::Left(_) => PlatformType::X11,
            Either::Right(_) => PlatformType::Wayland,
        }
    }
}

} // verus!
