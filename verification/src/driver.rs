use vstd::prelude::*;

use crate::color::Color;
use crate::command::BOOSTER_SOFT_START;
use crate::command::DATA_START_TRANSMISSION_1;
use crate::command::DATA_START_TRANSMISSION_2;
use crate::command::DEEP_SLEEP;
use crate::command::DISPLAY_REFRESH;
use crate::command::GET_STATUS;
use crate::command::LUT_BLACK_TO_BLACK;
use crate::command::LUT_BLACK_TO_WHITE;
use crate::command::LUT_FOR_VCOM;
use crate::command::LUT_WHITE_TO_BLACK;
use crate::command::LUT_WHITE_TO_WHITE;
use crate::command::PANEL_SETTING;
use crate::command::PARTIAL_DATA_START_TRANSMISSION_1;
use crate::command::PARTIAL_DISPLAY_REFRESH;
use crate::command::PLL_CONTROL;
use crate::command::POWER_OFF;
use crate::command::POWER_ON;
use crate::command::POWER_OPTIMIZATION;
use crate::command::POWER_SETTING;
use crate::command::VCM_DC_SETTING;
use crate::command::VCOM_AND_DATA_INTERVAL_SETTING;
use crate::constants::LUT_BB;
use crate::constants::LUT_BW;
use crate::constants::LUT_VCOM_DC;
use crate::constants::LUT_WB;
use crate::constants::LUT_WW;
use crate::interface::BusError;
use crate::interface::BusEvent;
use crate::interface::DisplayInterface;
use crate::interface::cmd_with_data_events;
use crate::interface::data_events;
use crate::interface::repeated_data_events;

verus! {

/// Width of the display, in pixels.
pub const WIDTH: u32 = 176;

/// Height of the display, in pixels.
pub const HEIGHT: u32 = 264;

/// Bytes of one full frame plane: eight pixels pack into one byte.
pub const FRAME_BUFFER_SIZE: u32 = WIDTH * HEIGHT / 8;

/// Background color a fresh controller starts with.
pub const DEFAULT_BACKGROUND_COLOR: Color = Color::White;

/// The panel holds the busy line low while it is busy.
const IS_BUSY_LOW: bool = true;

/// Refresh-rate selector accepted for symmetry with related panels; this
/// panel has a single built-in waveform table set, so the selector is
/// ignored.
#[derive(Clone, Copy, Debug, PartialEq, Eq, Structural)]
pub enum RefreshLut {
    /// Full refresh waveforms.
    Full,
    /// Quick (partial) refresh waveforms.
    Quick,
}

/// Errors reported by controller operations.
#[derive(Clone, Copy, Debug, PartialEq, Eq, Structural)]
pub enum DriverError {
    /// The underlying bus transport failed; nothing further was transmitted.
    Bus(BusError),
    /// The pixel buffer's length does not match the addressed window, and
    /// nothing was transmitted.
    InvalidBufferLength,
}

/// The transactions of the power-rail setup that precedes powering on:
/// power settings, booster soft-start, the seven vendor power-optimization
/// sub-steps, and the partial-refresh window disable byte.
pub open spec fn power_setup_events() -> Seq<BusEvent> {
    cmd_with_data_events(POWER_SETTING, seq![0x03u8, 0x00u8, 0x2bu8, 0x2bu8, 0x09u8])
        + cmd_with_data_events(BOOSTER_SOFT_START, seq![0x07u8, 0x07u8, 0x17u8])
        + cmd_with_data_events(POWER_OPTIMIZATION, seq![0x60u8, 0xa5u8])
        + cmd_with_data_events(POWER_OPTIMIZATION, seq![0x89u8, 0xa5u8])
        + cmd_with_data_events(POWER_OPTIMIZATION, seq![0x90u8, 0x00u8])
        + cmd_with_data_events(POWER_OPTIMIZATION, seq![0x93u8, 0x2au8])
        + cmd_with_data_events(POWER_OPTIMIZATION, seq![0xa0u8, 0xa5u8])
        + cmd_with_data_events(POWER_OPTIMIZATION, seq![0xa1u8, 0x00u8])
        + cmd_with_data_events(POWER_OPTIMIZATION, seq![0x73u8, 0x41u8])
        + cmd_with_data_events(PARTIAL_DISPLAY_REFRESH, seq![0x00u8])
}

/// The transactions of the panel configuration that follows powering on:
/// panel settings (multi-color mode), PLL control, and VCM DC level.
pub open spec fn panel_setup_events() -> Seq<BusEvent> {
    cmd_with_data_events(PANEL_SETTING, seq![0xafu8])
        + cmd_with_data_events(PLL_CONTROL, seq![0x3au8])
        + cmd_with_data_events(VCM_DC_SETTING, seq![0x12u8])
}

/// The transactions of one busy-gated synchronization point: a status
/// request followed by the blocking wait.
pub open spec fn wait_until_idle_events() -> Seq<BusEvent> {
    seq![BusEvent::Command(GET_STATUS), BusEvent::BusyWait]
}

/// The transactions that program all five waveform lookup tables.
pub open spec fn set_lut_events() -> Seq<BusEvent> {
    cmd_with_data_events(LUT_FOR_VCOM, LUT_VCOM_DC@)
        + cmd_with_data_events(LUT_WHITE_TO_WHITE, LUT_WW@)
        + cmd_with_data_events(LUT_BLACK_TO_WHITE, LUT_BW@)
        + cmd_with_data_events(LUT_WHITE_TO_BLACK, LUT_BB@)
        + cmd_with_data_events(LUT_BLACK_TO_BLACK, LUT_WB@)
}

/// The whole initialization/wake sequence: hardware reset first, then power
/// setup, power-on gated by a busy-wait, panel setup, and finally the
/// lookup tables.
pub open spec fn init_events() -> Seq<BusEvent> {
    seq![BusEvent::Reset] + power_setup_events() + seq![BusEvent::Command(POWER_ON)]
        + wait_until_idle_events() + panel_setup_events() + set_lut_events()
}

/// The transactions of entering deep sleep: both power-down steps are
/// busy-gated, and the deep-sleep command carries its fixed check byte.
pub open spec fn sleep_events() -> Seq<BusEvent> {
    wait_until_idle_events() + cmd_with_data_events(VCOM_AND_DATA_INTERVAL_SETTING, seq![0xf7u8])
        + seq![BusEvent::Command(POWER_OFF)] + wait_until_idle_events() + cmd_with_data_events(
        DEEP_SLEEP,
        seq![0xa5u8],
    )
}

/// The transactions that fill both frame planes with a flat color.
pub open spec fn clear_frame_events(color: Color) -> Seq<BusEvent> {
    seq![BusEvent::Command(DATA_START_TRANSMISSION_1)] + repeated_data_events(
        color.spec_byte_value(),
        FRAME_BUFFER_SIZE as nat,
    ) + seq![BusEvent::Command(DATA_START_TRANSMISSION_2)] + repeated_data_events(
        color.spec_byte_value(),
        FRAME_BUFFER_SIZE as nat,
    )
}

/// The transactions that stream one full frame into the second plane.
pub open spec fn update_frame_events(buffer: Seq<u8>) -> Seq<BusEvent> {
    seq![BusEvent::Command(DATA_START_TRANSMISSION_2)] + data_events(buffer)
}

/// The transactions of a physical refresh: the refresh command, then the
/// busy-gated wait for the (multi-second) redraw to finish.
pub open spec fn display_frame_events() -> Seq<BusEvent> {
    seq![BusEvent::Command(DISPLAY_REFRESH)] + wait_until_idle_events()
}

/// The eight geometry bytes of a partial window: x, y, width and height,
/// each split into a high byte and a low byte. The low bytes of x and width
/// are masked to multiples of eight, because pixels pack eight to a byte;
/// y and height are not masked.
pub open spec fn geometry_bytes(x: u32, y: u32, w: u32, h: u32) -> Seq<u8> {
    seq![
        ((x >> 8) & 0xff) as u8,
        (x & 0xf8) as u8,
        ((y >> 8) & 0xff) as u8,
        (y & 0xff) as u8,
        ((w >> 8) & 0xff) as u8,
        (w & 0xf8) as u8,
        ((h >> 8) & 0xff) as u8,
        (h & 0xff) as u8,
    ]
}

/// Bytes the panel expects for a partial window, as the geometry header
/// encodes it: the encoded width (masked to a multiple of eight) divided by
/// eight, times the encoded height.
pub open spec fn partial_window_bytes(w: u32, h: u32) -> nat {
    ((((w >> 8) & 0xff) * 0x100 + (w & 0xf8)) / 8 * (((h >> 8) & 0xff) * 0x100 + (h
        & 0xff))) as nat
}

/// The transactions that stream a partial window's pixels and refresh:
/// the partial start-transmission command, the geometry header, the
/// window's payload, then a full display-refresh gated by a busy-wait.
pub open spec fn update_partial_frame_events(
    buffer: Seq<u8>,
    x: u32,
    y: u32,
    w: u32,
    h: u32,
) -> Seq<BusEvent> {
    seq![BusEvent::Command(PARTIAL_DATA_START_TRANSMISSION_1)] + data_events(
        geometry_bytes(x, y, w, h),
    ) + data_events(buffer) + seq![BusEvent::Command(DISPLAY_REFRESH)] + wait_until_idle_events()
}

/// The transactions that re-flash a previously written window without new
/// data: the distinct partial-display-refresh command, the geometry header,
/// and a busy-wait — no payload and no full display-refresh command.
pub open spec fn display_partial_frame_events(x: u32, y: u32, w: u32, h: u32) -> Seq<BusEvent> {
    seq![BusEvent::Command(PARTIAL_DISPLAY_REFRESH)] + data_events(geometry_bytes(x, y, w, h))
        + wait_until_idle_events()
}

/// The transactions of the primary full-image entry point: stream the
/// frame, then refresh.
pub open spec fn update_and_display_frame_events(buffer: Seq<u8>) -> Seq<BusEvent> {
    update_frame_events(buffer) + display_frame_events()
}

/// Encodes a partial window's geometry header.
fn encode_geometry(x: u32, y: u32, w: u32, h: u32) -> (r: Vec<u8>)
    ensures
        r@ == geometry_bytes(x, y, w, h),
{
    proof {
        assert((x >> 8) & 0xff <= 0xff && (x & 0xf8) <= 0xff && (y >> 8) & 0xff <= 0xff && (y
            & 0xff) <= 0xff && (w >> 8) & 0xff <= 0xff && (w & 0xf8) <= 0xff && (h >> 8) & 0xff
            <= 0xff && (h & 0xff) <= 0xff) by (bit_vector);
    }
    let mut r: Vec<u8> = Vec::new();
    r.push(((x >> 8) & 0xff) as u8);
    r.push((x & 0xf8) as u8);
    r.push(((y >> 8) & 0xff) as u8);
    r.push((y & 0xff) as u8);
    r.push(((w >> 8) & 0xff) as u8);
    r.push((w & 0xf8) as u8);
    r.push(((h >> 8) & 0xff) as u8);
    r.push((h & 0xff) as u8);
    proof {
        assert(r@ =~= geometry_bytes(x, y, w, h));
    }
    r
}

/// The display controller: it owns the transport and a cached background
/// color, and decomposes each high-level operation into the panel's
/// documented command/data transactions with busy-waits at the defined
/// synchronization points.
///
/// After a successful construction or `wake_up` the panel is ready for
/// frame operations; after `sleep` it accepts none until the next
/// `wake_up`.
pub struct Epd2in7<I: DisplayInterface> {
    /// Connection to the panel.
    interface: I,
    /// Background color used by `clear_frame`.
    color: Color,
}

impl<I: DisplayInterface> Epd2in7<I> {
    /// The transactions this controller has issued through its transport.
    pub closed spec fn log(&self) -> Seq<BusEvent> {
        self.interface.log()
    }

    /// The cached background color.
    pub closed spec fn spec_background_color(&self) -> Color {
        self.color
    }

    /// Shared access to the transport, for reading back what a pure
    /// transport such as a recorder has gathered.
    pub fn interface(&self) -> (r: &I)
        ensures
            r.log() == self.log(),
    {
        &self.interface
    }

    /// Sends one command byte.
    fn cmd(&mut self, command: u8) -> (r: Result<(), DriverError>)
        ensures
            final(self).spec_background_color() == old(self).spec_background_color(),
            r is Ok ==> final(self).log() == old(self).log().push(BusEvent::Command(command)),
            r is Err ==> final(self).log() == old(self).log(),
            r matches Err(e) ==> e is Bus,
    {
        match self.interface.cmd(command) {
            Ok(()) => Ok(()),
            Err(e) => Err(DriverError::Bus(e)),
        }
    }

    /// Sends a data payload.
    fn data(&mut self, data: &[u8]) -> (r: Result<(), DriverError>)
        ensures
            final(self).spec_background_color() == old(self).spec_background_color(),
            r is Ok ==> final(self).log() == old(self).log() + data_events(data@),
            r is Err ==> final(self).log() == old(self).log(),
            r matches Err(e) ==> e is Bus,
    {
        match self.interface.data(data) {
            Ok(()) => Ok(()),
            Err(e) => Err(DriverError::Bus(e)),
        }
    }

    /// Sends one command byte followed by its payload.
    fn cmd_with_data(&mut self, command: u8, data: &[u8]) -> (r: Result<(), DriverError>)
        ensures
            final(self).spec_background_color() == old(self).spec_background_color(),
            r is Ok ==> final(self).log() == old(self).log() + cmd_with_data_events(
                command,
                data@,
            ),
            r matches Err(e) ==> e is Bus,
    {
        self.cmd(command)?;
        self.data(data)?;
        proof {
            assert(self.log() =~= old(self).log() + cmd_with_data_events(command, data@));
        }
        Ok(())
    }

    /// Issues a status request and blocks until the panel reports ready.
    fn wait_until_idle(&mut self) -> (r: Result<(), DriverError>)
        ensures
            final(self).spec_background_color() == old(self).spec_background_color(),
            r is Ok ==> final(self).log() == old(self).log() + wait_until_idle_events(),
            r matches Err(e) ==> e is Bus,
    {
        self.cmd(GET_STATUS)?;
        self.interface.wait_until_idle(IS_BUSY_LOW);
        proof {
            assert(self.log() =~= old(self).log() + wait_until_idle_events());
        }
        Ok(())
    }

    /// Runs the power-rail setup that precedes powering on.
    fn power_setup(&mut self) -> (r: Result<(), DriverError>)
        ensures
            final(self).spec_background_color() == old(self).spec_background_color(),
            r is Ok ==> final(self).log() == old(self).log() + power_setup_events(),
            r matches Err(e) ==> e is Bus,
    {
        self.cmd_with_data(POWER_SETTING, &[0x03, 0x00, 0x2b, 0x2b, 0x09])?;
        self.cmd_with_data(BOOSTER_SOFT_START, &[0x07, 0x07, 0x17])?;
        self.cmd_with_data(POWER_OPTIMIZATION, &[0x60, 0xa5])?;
        self.cmd_with_data(POWER_OPTIMIZATION, &[0x89, 0xa5])?;
        self.cmd_with_data(POWER_OPTIMIZATION, &[0x90, 0x00])?;
        self.cmd_with_data(POWER_OPTIMIZATION, &[0x93, 0x2a])?;
        self.cmd_with_data(POWER_OPTIMIZATION, &[0xa0, 0xa5])?;
        self.cmd_with_data(POWER_OPTIMIZATION, &[0xa1, 0x00])?;
        self.cmd_with_data(POWER_OPTIMIZATION, &[0x73, 0x41])?;
        self.cmd_with_data(PARTIAL_DISPLAY_REFRESH, &[0x00])?;
        proof {
            assert(self.log() =~= old(self).log() + power_setup_events());
        }
        Ok(())
    }

    /// Runs the panel configuration that follows powering on.
    fn panel_setup(&mut self) -> (r: Result<(), DriverError>)
        ensures
            final(self).spec_background_color() == old(self).spec_background_color(),
            r is Ok ==> final(self).log() == old(self).log() + panel_setup_events(),
            r matches Err(e) ==> e is Bus,
    {
        self.cmd_with_data(PANEL_SETTING, &[0xaf])?;
        self.cmd_with_data(PLL_CONTROL, &[0x3a])?;
        self.cmd_with_data(VCM_DC_SETTING, &[0x12])?;
        proof {
            assert(self.log() =~= old(self).log() + panel_setup_events());
        }
        Ok(())
    }

    /// Programs all five waveform lookup tables. The refresh-rate selector
    /// exists for symmetry with related panels and is ignored: the one
    /// built-in table set is always installed.
    pub fn set_lut(&mut self, refresh_rate: Option<RefreshLut>) -> (r: Result<(), DriverError>)
        ensures
            final(self).spec_background_color() == old(self).spec_background_color(),
            r is Ok ==> final(self).log() == old(self).log() + set_lut_events(),
            r matches Err(e) ==> e is Bus,
    {
        self.cmd_with_data(LUT_FOR_VCOM, LUT_VCOM_DC.as_slice())?;
        self.cmd_with_data(LUT_WHITE_TO_WHITE, LUT_WW.as_slice())?;
        self.cmd_with_data(LUT_BLACK_TO_WHITE, LUT_BW.as_slice())?;
        self.cmd_with_data(LUT_WHITE_TO_BLACK, LUT_BB.as_slice())?;
        self.cmd_with_data(LUT_BLACK_TO_BLACK, LUT_WB.as_slice())?;
        proof {
            assert(self.log() =~= old(self).log() + set_lut_events());
        }
        Ok(())
    }

    /// Runs the full initialization sequence: hardware reset, power setup,
    /// busy-gated power-on, panel setup, lookup tables. On success the
    /// panel is ready for frame operations.
    fn init(&mut self) -> (r: Result<(), DriverError>)
        ensures
            final(self).spec_background_color() == old(self).spec_background_color(),
            r is Ok ==> final(self).log() == old(self).log() + init_events(),
            r matches Err(e) ==> e is Bus,
    {
        self.interface.reset(2);
        self.power_setup()?;
        self.cmd(POWER_ON)?;
        self.wait_until_idle()?;
        self.panel_setup()?;
        self.set_lut(None)?;
        proof {
            assert(self.log() =~= old(self).log() + init_events());
        }
        Ok(())
    }

    /// Constructs a controller around a transport, resets the panel and
    /// runs the full initialization sequence before returning the ready
    /// handle.
    pub fn new(interface: I) -> (r: Result<Epd2in7<I>, DriverError>)
        ensures
            r matches Ok(epd) ==> epd.spec_background_color() == DEFAULT_BACKGROUND_COLOR && epd.log()
                == interface.log() + init_events(),
            r matches Err(e) ==> e is Bus,
    {
        let mut epd = Epd2in7 { interface, color: DEFAULT_BACKGROUND_COLOR };
        match epd.init() {
            Ok(()) => Ok(epd),
            Err(e) => Err(e),
        }
    }

    /// Re-runs the full initialization sequence, waking the panel from deep
    /// sleep. This is the same sequence in every controller state: waking
    /// an already-ready controller re-runs it in full, with no
    /// skip-if-already-initialized shortcut.
    pub fn wake_up(&mut self) -> (r: Result<(), DriverError>)
        ensures
            final(self).spec_background_color() == old(self).spec_background_color(),
            r is Ok ==> final(self).log() == old(self).log() + init_events(),
            r matches Err(e) ==> e is Bus,
    {
        self.init()
    }

    /// Puts the panel into deep sleep. After this, issue no frame
    /// operation until `wake_up` has re-initialized the panel.
    pub fn sleep(&mut self) -> (r: Result<(), DriverError>)
        ensures
            final(self).spec_background_color() == old(self).spec_background_color(),
            r is Ok ==> final(self).log() == old(self).log() + sleep_events(),
            r matches Err(e) ==> e is Bus,
    {
        self.wait_until_idle()?;
        self.cmd_with_data(VCOM_AND_DATA_INTERVAL_SETTING, &[0xf7])?;
        self.cmd(POWER_OFF)?;
        self.wait_until_idle()?;
        self.cmd_with_data(DEEP_SLEEP, &[0xa5])?;
        proof {
            assert(self.log() =~= old(self).log() + sleep_events());
        }
        Ok(())
    }

    /// Fills both frame planes with the current background color, without
    /// triggering a physical refresh.
    pub fn clear_frame(&mut self) -> (r: Result<(), DriverError>)
        ensures
            final(self).spec_background_color() == old(self).spec_background_color(),
            r is Ok ==> final(self).log() == old(self).log() + clear_frame_events(
                old(self).spec_background_color(),
            ),
            r matches Err(e) ==> e is Bus,
    {
        let color_value = self.color.get_byte_value();
        self.cmd(DATA_START_TRANSMISSION_1)?;
        self.data_x_times(color_value, FRAME_BUFFER_SIZE)?;
        self.cmd(DATA_START_TRANSMISSION_2)?;
        self.data_x_times(color_value, FRAME_BUFFER_SIZE)?;
        proof {
            assert(self.log() =~= old(self).log() + clear_frame_events(old(self).color));
        }
        Ok(())
    }

    /// Sends one byte repeatedly in data state.
    fn data_x_times(&mut self, byte: u8, count: u32) -> (r: Result<(), DriverError>)
        ensures
            final(self).spec_background_color() == old(self).spec_background_color(),
            r is Ok ==> final(self).log() == old(self).log() + repeated_data_events(
                byte,
                count as nat,
            ),
            r is Err ==> final(self).log() == old(self).log(),
            r matches Err(e) ==> e is Bus,
    {
        match self.interface.data_x_times(byte, count) {
            Ok(()) => Ok(()),
            Err(e) => Err(DriverError::Bus(e)),
        }
    }

    /// Streams a full frame into the second transmission plane, verbatim,
    /// without triggering a refresh. The buffer must hold exactly one
    /// packed full frame; a wrong length is rejected before anything is
    /// transmitted.
    pub fn update_frame(&mut self, buffer: &[u8]) -> (r: Result<(), DriverError>)
        ensures
            final(self).spec_background_color() == old(self).spec_background_color(),
            (r matches Err(e) && e is InvalidBufferLength) <==> buffer@.len()
                != FRAME_BUFFER_SIZE as nat,
            buffer@.len() != FRAME_BUFFER_SIZE as nat ==> final(self).log() == old(self).log(),
            r is Ok ==> final(self).log() == old(self).log() + update_frame_events(buffer@),
    {
        if buffer.len() != FRAME_BUFFER_SIZE as usize {
            return Err(DriverError::InvalidBufferLength);
        }
        self.cmd_with_data(DATA_START_TRANSMISSION_2, buffer)
    }

    /// Issues the physical refresh and blocks until the panel has finished
    /// redrawing.
    pub fn display_frame(&mut self) -> (r: Result<(), DriverError>)
        ensures
            final(self).spec_background_color() == old(self).spec_background_color(),
            r is Ok ==> final(self).log() == old(self).log() + display_frame_events(),
            r matches Err(e) ==> e is Bus,
    {
        self.cmd(DISPLAY_REFRESH)?;
        self.wait_until_idle()?;
        proof {
            assert(self.log() =~= old(self).log() + display_frame_events());
        }
        Ok(())
    }

    /// Streams a full frame and then refreshes the display: the primary
    /// "draw a full image" entry point.
    pub fn update_and_display_frame(&mut self, buffer: &[u8]) -> (r: Result<(), DriverError>)
        ensures
            final(self).spec_background_color() == old(self).spec_background_color(),
            (r matches Err(e) && e is InvalidBufferLength) <==> buffer@.len()
                != FRAME_BUFFER_SIZE as nat,
            buffer@.len() != FRAME_BUFFER_SIZE as nat ==> final(self).log() == old(self).log(),
            r is Ok ==> final(self).log() == old(self).log() + update_and_display_frame_events(
                buffer@,
            ),
    {
        self.update_frame(buffer)?;
        self.display_frame()?;
        proof {
            assert(self.log() =~= old(self).log() + update_and_display_frame_events(buffer@));
        }
        Ok(())
    }

    /// Streams a partial window's pixels and refreshes the display. The
    /// geometry header masks x and width to multiples of eight; the buffer
    /// must hold exactly the masked window's bytes, and a wrong length is
    /// rejected before anything is transmitted.
    pub fn update_partial_frame(
        &mut self,
        buffer: &[u8],
        x: u32,
        y: u32,
        width: u32,
        height: u32,
    ) -> (r: Result<(), DriverError>)
        ensures
            final(self).spec_background_color() == old(self).spec_background_color(),
            (r matches Err(e) && e is InvalidBufferLength) <==> buffer@.len()
                != partial_window_bytes(width, height),
            buffer@.len() != partial_window_bytes(width, height) ==> final(self).log() == old(
                self,
            ).log(),
            r is Ok ==> final(self).log() == old(self).log() + update_partial_frame_events(
                buffer@,
                x,
                y,
                width,
                height,
            ),
    {
        if buffer.len() != partial_window_size(width, height) {
            return Err(DriverError::InvalidBufferLength);
        }
        self.cmd(PARTIAL_DATA_START_TRANSMISSION_1)?;
        let geometry = encode_geometry(x, y, width, height);
        self.data(geometry.as_slice())?;
        self.data(buffer)?;
        self.cmd(DISPLAY_REFRESH)?;
        self.wait_until_idle()?;
        proof {
            assert(self.log() =~= old(self).log() + update_partial_frame_events(
                buffer@,
                x,
                y,
                width,
                height,
            ));
        }
        Ok(())
    }

    /// Re-flashes a previously written partial window without resending its
    /// pixels, using the partial-display-refresh command — a command code
    /// distinct from the partial start-transmission and display-refresh
    /// codes of `update_partial_frame`.
    pub fn display_partial_frame(
        &mut self,
        x: u32,
        y: u32,
        width: u32,
        height: u32,
    ) -> (r: Result<(), DriverError>)
        ensures
            final(self).spec_background_color() == old(self).spec_background_color(),
            r is Ok ==> final(self).log() == old(self).log() + display_partial_frame_events(
                x,
                y,
                width,
                height,
            ),
            r matches Err(e) ==> e is Bus,
    {
        self.cmd(PARTIAL_DISPLAY_REFRESH)?;
        let geometry = encode_geometry(x, y, width, height);
        self.data(geometry.as_slice())?;
        self.wait_until_idle()?;
        proof {
            assert(self.log() =~= old(self).log() + display_partial_frame_events(
                x,
                y,
                width,
                height,
            ));
        }
        Ok(())
    }

    /// Sets the background color used by `clear_frame`.
    pub fn set_background_color(&mut self, color: Color)
        ensures
            final(self).spec_background_color() == color,
            final(self).log() == old(self).log(),
    {
        self.color = color;
    }

    /// The current background color.
    pub fn background_color(&self) -> (r: &Color)
        ensures
            *r == self.spec_background_color(),
    {
        &self.color
    }

    /// The fixed panel width, in pixels.
    pub fn width(&self) -> (r: u32)
        ensures
            r == WIDTH,
    {
        WIDTH
    }

    /// The fixed panel height, in pixels.
    pub fn height(&self) -> (r: u32)
        ensures
            r == HEIGHT,
    {
        HEIGHT
    }

    /// Reads the busy line once, without blocking.
    pub fn is_busy(&self) -> bool {
        self.interface.is_busy(IS_BUSY_LOW)
    }
}

/// Computes, in executable code, the byte count of a partial window as the
/// geometry header encodes it.
fn partial_window_size(width: u32, height: u32) -> (r: usize)
    ensures
        r as nat == partial_window_bytes(width, height),
{
    proof {
        assert((width >> 8) & 0xff <= 0xff && (width & 0xf8) <= 0xf8 && (height >> 8) & 0xff
            <= 0xff && (height & 0xff) <= 0xff) by (bit_vector);
    }
    let w_encoded: u32 = ((width >> 8) & 0xff) * 0x100 + (width & 0xf8);
    let h_encoded: u32 = ((height >> 8) & 0xff) * 0x100 + (height & 0xff);
    proof {
        assert((w_encoded / 8) * h_encoded <= 8191 * 65535) by (nonlinear_arith)
            requires
                w_encoded / 8 <= 8191,
                h_encoded <= 65535,
        ;
    }
    ((w_encoded / 8) * h_encoded) as usize
}

} // verus!
