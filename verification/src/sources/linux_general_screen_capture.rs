//! Screen capture on Linux, whatever the display server.
//!
//! Which implementation captures depends on the display server that the
//! engine runs on. It is chosen once, when the builder is made, and stays.
//! The builder offers the options of both implementations; an option that
//! the chosen implementation does not know is passed over, and the builder
//! comes back as it was.

use crate::data::{Entries, ObsData, ObsValueView};
use crate::error::ObsError;
use crate::handle::SafeHandle;
use crate::sources::either::{
    Either, EitherSource, ObsPipeWireSourceRef, ObsSourceRef, ObsSourceTrait,
};
use crate::sources::linux::{
    is_built, BuilderView, PipeWireScreenCaptureSourceBuilder, X11CaptureSourceBuilder,
};
use crate::utils::initialization::PlatformType;
use crate::utils::obs_string::ObsString;
use vstd::prelude::*;

verus! {

/// The builder of a screen capture source for the display server at hand.
#[derive(Debug)]
pub struct LinuxGeneralScreenCaptureBuilder {
    underlying_builder: Either<X11CaptureSourceBuilder, PipeWireScreenCaptureSourceBuilder>,
}

/// The source that the builder makes: an X11 source or a PipeWire source.
pub type LinuxGeneralScreenCaptureSourceRef = EitherSource<ObsSourceRef, ObsPipeWireSourceRef>;

impl View for LinuxGeneralScreenCaptureBuilder {
    type V = Either<BuilderView, BuilderView>;

    closed spec fn view(&self) -> Either<BuilderView, BuilderView> {
        match self.underlying_builder {
            Either::Left(b) => Either::Left(b@),
            Either::Right(b) => Either::Right(b@),
        }
    }
}

/// The builder `b` with `value` under `key` where it is an X11 builder,
/// and `b` as it is otherwise.
pub open spec fn on_x11(b: Either<BuilderView, BuilderView>, key: Seq<char>, value: ObsValueView)
    -> Either<BuilderView, BuilderView> {
    match b {
        Either::Left(x11) => Either::Left(x11.with(key, value)),
        Either::Right(pipewire) => Either::Right(pipewire),
    }
}

/// The builder `b` with `value` under `key` where it is a PipeWire builder,
/// and `b` as it is otherwise.
pub open spec fn on_pipewire(
    b: Either<BuilderView, BuilderView>,
    key: Seq<char>,
    value: ObsValueView,
) -> Either<BuilderView, BuilderView> {
    match b {
        Either::Left(x11) => Either::Left(x11),
        Either::Right(pipewire) => Either::Right(pipewire.with(key, value)),
    }
}

/// The builder `b` with `value` under `key`, whichever builder it is.
pub open spec fn on_both(b: Either<BuilderView, BuilderView>, key: Seq<char>, value: ObsValueView)
    -> Either<BuilderView, BuilderView> {
    match b {
        Either::Left(x11) => Either::Left(x11.with(key, value)),
        Either::Right(pipewire) => Either::Right(pipewire.with(key, value)),
    }
}

/// The builder `b` with the settings `settings`, whichever builder it is.
pub open spec fn with_settings(b: Either<BuilderView, BuilderView>, settings: Entries) -> Either<
    BuilderView,
    BuilderView,
> {
    match b {
        Either::Left(x11) => Either::Left(BuilderView { settings, ..x11 }),
        Either::Right(pipewire) => Either::Right(BuilderView { settings, ..pipewire }),
    }
}

/// The builder `b` with the hotkeys `hotkeys`, whichever builder it is.
pub open spec fn with_hotkeys(b: Either<BuilderView, BuilderView>, hotkeys: Entries) -> Either<
    BuilderView,
    BuilderView,
> {
    match b {
        Either::Left(x11) => Either::Left(BuilderView { hotkeys, ..x11 }),
        Either::Right(pipewire) => Either::Right(BuilderView { hotkeys, ..pipewire }),
    }
}

/// The name and settings of the builder `b`, whichever builder it is.
pub open spec fn chosen(b: Either<BuilderView, BuilderView>) -> BuilderView {
    match b {
        Either::Left(x11) => x11,
        Either::Right(pipewire) => pipewire,
    }
}

impl LinuxGeneralScreenCaptureBuilder {
    /// A builder for a source named `name` on the display server
    /// `platform`: an X11 builder on X11, a PipeWire builder on Wayland.
    /// Without a display server there is nothing to build for.
    pub fn new(name: &str, platform: PlatformType) -> (r: Result<
        LinuxGeneralScreenCaptureBuilder,
        ObsError,
    >)
        ensures
            match platform {
                PlatformType::X11 => r matches Ok(b) && b@ == Either::<
                    BuilderView,
                    BuilderView,
                >::Left(BuilderView::empty(name@)),
                PlatformType::Wayland => r matches Ok(b) && b@ == Either::<
                    BuilderView,
                    BuilderView,
                >::Right(BuilderView::empty(name@)),
                PlatformType::Invalid => r matches Err(e) && e == ObsError::PlatformUnsupported,
            },
    {
        match platform {
            PlatformType::X11 => Ok(
                LinuxGeneralScreenCaptureBuilder {
                    underlying_builder: Either::Left(X11CaptureSourceBuilder::new(name)),
                },
            ),
            PlatformType::Wayland => Ok(
                LinuxGeneralScreenCaptureBuilder {
                    underlying_builder: Either::Right(
                        PipeWireScreenCaptureSourceBuilder::new(name),
                    ),
                },
            ),
            PlatformType::Invalid => Err(ObsError::PlatformUnsupported),
        }
    }

    /// The kind of source that the builder stands for.
    pub fn get_id() -> (id: ObsString)
        ensures
            id@ == "linux_general_screen_capture"@,
    {
        ObsString::new("linux_general_screen_capture")
    }

    /// The name that the source will have.
    pub fn get_name(&self) -> (name: ObsString)
        ensures
            name@ == chosen(self@).name,
    {
        match &self.underlying_builder {
            Either::Left(builder) => builder.get_name(),
            Either::Right(builder) => builder.get_name(),
        }
    }

    /// The settings collected so far.
    pub fn get_settings(&self) -> (settings: &ObsData)
        ensures
            settings@ == chosen(self@).settings,
    {
        match &self.underlying_builder {
            Either::Left(builder) => builder.get_settings(),
            Either::Right(builder) => builder.get_settings(),
        }
    }

    /// The settings collected so far, to be changed in place.
    pub fn get_settings_updater(&mut self) -> (settings: &mut ObsData)
        ensures
            settings@ == chosen(old(self)@).settings,
            final(self)@ == with_settings(old(self)@, final(settings)@),
    {
        match &mut self.underlying_builder {
            Either::Left(builder) => builder.get_settings_updater(),
            Either::Right(builder) => builder.get_settings_updater(),
        }
    }

    /// The hotkeys collected so far.
    pub fn get_hotkeys(&self) -> (hotkeys: &ObsData)
        ensures
            hotkeys@ == chosen(self@).hotkeys,
    {
        match &self.underlying_builder {
            Either::Left(builder) => builder.get_hotkeys(),
            Either::Right(builder) => builder.get_hotkeys(),
        }
    }

    /// The hotkeys collected so far, to be changed in place.
    pub fn get_hotkeys_updater(&mut self) -> (hotkeys: &mut ObsData)
        ensures
            hotkeys@ == chosen(old(self)@).hotkeys,
            final(self)@ == with_hotkeys(old(self)@, final(hotkeys)@),
    {
        match &mut self.underlying_builder {
            Either::Left(builder) => builder.get_hotkeys_updater(),
            Either::Right(builder) => builder.get_hotkeys_updater(),
        }
    }

    /// The source, given the engine's answer to the request to make it: an
    /// X11 source from an X11 builder, a PipeWire source from a PipeWire
    /// builder.
    pub fn build(self, created: Result<SafeHandle, ObsError>) -> (r: Result<
        LinuxGeneralScreenCaptureSourceRef,
        ObsError,
    >)
        ensures
            is_built(r, chosen(self@).built(created)),
            r matches Ok(source) ==> (source is Left <==> self@ is Left),
    {
        match self.underlying_builder {
            Either::Left(builder) => match builder.build(created) {
                Ok(source) => Ok(EitherSource::Left(source)),
                Err(e) => Err(e),
            },
            Either::Right(builder) => match builder.build(created) {
                Ok(source) => Ok(EitherSource::Right(source)),
                Err(e) => Err(e),
            },
        }
    }

    /// Hands in the token that restores the user's earlier selection.
    /// PipeWire only.
    pub fn set_restore_token(self, token: &str) -> (builder: LinuxGeneralScreenCaptureBuilder)
        ensures
            builder@ == on_pipewire(self@, "restore_token"@, ObsValueView::Text(token@)),
    {
        let underlying_builder = match self.underlying_builder {
            Either::Left(builder) => Either::Left(builder),
            Either::Right(builder) => Either::Right(builder.set_restore_token(token)),
        };
        LinuxGeneralScreenCaptureBuilder { underlying_builder }
    }

    /// Says whether the cursor is captured. Every display server.
    pub fn set_show_cursor(self, show: bool) -> (builder: LinuxGeneralScreenCaptureBuilder)
        ensures
            builder@ == on_both(self@, "show_cursor"@, ObsValueView::Bool(show)),
    {
        let underlying_builder = match self.underlying_builder {
            Either::Left(builder) => Either::Left(builder.set_show_cursor(show)),
            Either::Right(builder) => Either::Right(builder.set_show_cursor(show)),
        };
        LinuxGeneralScreenCaptureBuilder { underlying_builder }
    }

    /// Chooses the screen to capture. X11 only.
    pub fn set_screen(self, screen: i64) -> (builder: LinuxGeneralScreenCaptureBuilder)
        ensures
            builder@ == on_x11(self@, "screen"@, ObsValueView::Int(screen)),
    {
        let underlying_builder = match self.underlying_builder {
            Either::Left(builder) => Either::Left(builder.set_screen(screen)),
            Either::Right(builder) => Either::Right(builder),
        };
        LinuxGeneralScreenCaptureBuilder { underlying_builder }
    }

    /// Switches the advanced settings on or off. X11 only.
    pub fn set_advanced(self, advanced: bool) -> (builder: LinuxGeneralScreenCaptureBuilder)
        ensures
            builder@ == on_x11(self@, "advanced"@, ObsValueView::Bool(advanced)),
    {
        let underlying_builder = match self.underlying_builder {
            Either::Left(builder) => Either::Left(builder.set_advanced(advanced)),
            Either::Right(builder) => Either::Right(builder),
        };
        LinuxGeneralScreenCaptureBuilder { underlying_builder }
    }

    /// Names the X server to connect to. X11 only.
    pub fn set_server(self, server: &str) -> (builder: LinuxGeneralScreenCaptureBuilder)
        ensures
            builder@ == on_x11(self@, "server"@, ObsValueView::Text(server@)),
    {
        let underlying_builder = match self.underlying_builder {
            Either::Left(builder) => Either::Left(builder.set_server(server)),
            Either::Right(builder) => Either::Right(builder),
        };
        LinuxGeneralScreenCaptureBuilder { underlying_builder }
    }

    /// Crops from the top, in pixels. X11 only.
    pub fn set_cut_top(self, cut_top: i64) -> (builder: LinuxGeneralScreenCaptureBuilder)
        ensures
            builder@ == on_x11(self@, "cut_top"@, ObsValueView::Int(cut_top)),
    {
        let underlying_builder = match self.underlying_builder {
            Either::Left(builder) => Either::Left(builder.set_cut_top(cut_top)),
            Either::Right(builder) => Either::Right(builder),
        };
        LinuxGeneralScreenCaptureBuilder { underlying_builder }
    }

    /// Crops from the left, in pixels. X11 only.
    pub fn set_cut_left(self, cut_left: i64) -> (builder: LinuxGeneralScreenCaptureBuilder)
        ensures
            builder@ == on_x11(self@, "cut_left"@, ObsValueView::Int(cut_left)),
    {
        let underlying_builder = match self.underlying_builder {
            Either::Left(builder) => Either::Left(builder.set_cut_left(cut_left)),
            Either::Right(builder) => Either::Right(builder),
        };
        LinuxGeneralScreenCaptureBuilder { underlying_builder }
    }

    /// Crops from the right, in pixels. X11 only.
    pub fn set_cut_right(self, cut_right: i64) -> (builder: LinuxGeneralScreenCaptureBuilder)
        ensures
            builder@ == on_x11(self@, "cut_right"@, ObsValueView::Int(cut_right)),
    {
        let underlying_builder = match self.underlying_builder {
            Either::Left(builder) => Either::Left(builder.set_cut_right(cut_right)),
            Either::Right(builder) => Either::Right(builder),
        };
        LinuxGeneralScreenCaptureBuilder { underlying_builder }
    }

    /// Crops from the bottom, in pixels. X11 only.
    pub fn set_cut_bot(self, cut_bot: i64) -> (builder: LinuxGeneralScreenCaptureBuilder)
        ensures
            builder@ == on_x11(self@, "cut_bot"@, ObsValueView::Int(cut_bot)),
    {
        let underlying_builder = match self.underlying_builder {
            Either::Left(builder) => Either::Left(builder.set_cut_bot(cut_bot)),
            Either::Right(builder) => Either::Right(builder),
        };
        LinuxGeneralScreenCaptureBuilder { underlying_builder }
    }

    /// The display server that the builder was made for.
    pub fn capture_type_name(&self) -> (platform: PlatformType)
        ensures
            platform == (if self@ is Left {
                PlatformType::X11
            } else {
                PlatformType::Wayland
            }),
    {
        match &self.underlying_builder {
            Either::Left(_) => PlatformType::X11,
            Either::Right(_) => PlatformType::Wayland,
        }
    }
}

/// The choice stands: no option moves a builder from one display server to
/// the other, and an option of the other display server leaves the builder
/// as it was.
pub proof fn lemma_options_keep_the_choice(
    b: Either<BuilderView, BuilderView>,
    key: Seq<char>,
    value: ObsValueView,
)
    ensures
        on_x11(b, key, value) is Left <==> b is Left,
        on_pipewire(b, key, value) is Left <==> b is Left,
        on_both(b, key, value) is Left <==> b is Left,
        b is Right ==> on_x11(b, key, value) == b,
        b is Left ==> on_pipewire(b, key, value) == b,
{
}

} // verus!
