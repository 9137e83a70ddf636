//! Field geometry for the supported display resolutions and the per-line
//! producer decision that paces a field.

use vstd::prelude::*;

verus! {

/// Geometry of one interlaced field for a supported resolution.
#[derive(Copy, Clone)]
pub struct PCMMode {
    pub screen_width: i32,
    pub screen_height: i32,
    pub field_rate: i32,
    pub visible_pcm_field_height: i32,
    pub visible_pcm_data_field_height: i32,
    pub pcm_data_lines_in_field: i32,
}

/// The PAL-like mode: 720x576 at 50 fields per second, 294 lines per field.
pub open spec fn pal_mode() -> PCMMode {
    PCMMode {
        screen_width: 720,
        screen_height: 576,
        field_rate: 50,
        visible_pcm_field_height: 288,
        visible_pcm_data_field_height: 287,
        pcm_data_lines_in_field: 294,
    }
}

/// The NTSC-like mode: 720x480 at 60 fields per second, 245 lines per field.
pub open spec fn ntsc_mode() -> PCMMode {
    PCMMode {
        screen_width: 720,
        screen_height: 480,
        field_rate: 60,
        visible_pcm_field_height: 240,
        visible_pcm_data_field_height: 239,
        pcm_data_lines_in_field: 245,
    }
}

impl PCMMode {
    /// The derived heights are consistent and a field has at least one line.
    pub open spec fn wf(&self) -> bool {
        &&& self.screen_height >= 0
        &&& self.visible_pcm_field_height == self.screen_height / 2
        &&& self.visible_pcm_data_field_height == self.visible_pcm_field_height - 1
        &&& self.pcm_data_lines_in_field >= 1
    }

    /// A mode for the given resolution: the visible field is half the screen
    /// height, of which the first row carries the CTL line.
    pub fn new(screen_width: i32, screen_height: i32, field_rate: i32, pcm_data_lines_in_field: i32) -> (r: Self)
        requires
            screen_height >= 0,
        ensures
            r.screen_width == screen_width,
            r.screen_height == screen_height,
            r.field_rate == field_rate,
            r.visible_pcm_field_height == screen_height / 2,
            r.visible_pcm_data_field_height == screen_height / 2 - 1,
            r.pcm_data_lines_in_field == pcm_data_lines_in_field,
            pcm_data_lines_in_field >= 1 ==> r.wf(),
    {
        let visible_pcm_field_height = screen_height / 2;
        PCMMode {
            screen_width,
            screen_height,
            field_rate,
            visible_pcm_field_height,
            visible_pcm_data_field_height: visible_pcm_field_height - 1,
            pcm_data_lines_in_field,
        }
    }

    /// The mode for the current display resolution: exactly the two
    /// standardized rates are supported; any other resolution is rejected.
    pub fn for_resolution(width: i32, height: i32) -> (r: Option<PCMMode>)
        ensures
            r is Some <==> (width == 720 && (height == 576 || height == 480)),
            width == 720 && height == 576 ==> r == Some(pal_mode()),
            width == 720 && height == 480 ==> r == Some(ntsc_mode()),
            r is Some ==> r.unwrap().wf(),
    {
        if width == 720 && height == 576 {
            Some(PCMMode::new(720, 576, 50, 294))
        } else if width == 720 && height == 480 {
            Some(PCMMode::new(720, 480, 60, 245))
        } else {
            None
        }
    }

    /// One producer-loop decision: whether the line emitted at field
    /// position `current_line` lies in the drawable area and is queued, and
    /// the next value of the line counter, wrapping at the end of the field.
    pub fn line_step(&self, current_line: i32) -> (r: (bool, i32))
        requires
            self.wf(),
            0 <= current_line < self.pcm_data_lines_in_field,
        ensures
            r.0 == (current_line < self.visible_pcm_data_field_height),
            r.1 == (if current_line == self.pcm_data_lines_in_field - 1 {
                0int
            } else {
                current_line + 1
            }),
            0 <= r.1 < self.pcm_data_lines_in_field,
    {
        let enqueue = current_line < self.visible_pcm_data_field_height;
        let next = if current_line == self.pcm_data_lines_in_field - 1 {
            0
        } else {
            current_line + 1
        };
        (enqueue, next)
    }
}

} // verus!
