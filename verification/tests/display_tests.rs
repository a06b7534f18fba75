use sensecap_indicator::firmware::display::{
    spi_send_data, tca9535_write_reg, BlitRequest, BusFault, DisplayDriver, DisplayError,
    PanelCall, PanelOp, PanelState, DISP_HOR_RES, DISP_VER_RES, ESP_OK, FRAME_PIXELS,
    PROGRAM_LEN, ST7701S_PROGRAM,
};

/// What a panel on the other end of the lines receives: the data line is
/// sampled at every rising clock edge while chip select is low, and a frame
/// ends when chip select goes high. Returns the first nine bits of every
/// frame as a number, and the pauses, in order.
fn received(ops: &[PanelOp]) -> Vec<(bool, u32)> {
    let mut out = Vec::new();
    let mut cs = true;
    let mut clock = false;
    let mut data = false;
    let mut bits: Vec<bool> = Vec::new();
    for op in ops {
        match *op {
            PanelOp::ExpanderWrite { register, low, .. } => {
                if register == 0x02 {
                    let level = low & 0x10 != 0;
                    if level && !cs && !bits.is_empty() {
                        let mut word = 0u32;
                        for b in bits.iter().take(9) {
                            word = (word << 1) | (*b as u32);
                        }
                        assert!(bits.len() >= 9);
                        out.push((false, word));
                        bits.clear();
                    }
                    cs = level;
                }
            }
            PanelOp::SetClock(level) => {
                if level && !clock && !cs {
                    bits.push(data);
                }
                clock = level;
            }
            PanelOp::SetData(level) => {
                assert!(!clock || cs, "the data line moved while the clock was high");
                data = level;
            }
            PanelOp::DelayMillis(ms) => out.push((true, ms)),
            _ => {}
        }
    }
    out
}

fn ready_driver() -> DisplayDriver {
    let mut ops = Vec::new();
    let mut driver = DisplayDriver::new(&mut ops);
    let mut call = Some(PanelCall::Create);
    while let Some(c) = call {
        call = driver.init_rgb_panel(c, ESP_OK, &mut ops).unwrap();
    }
    driver
}

#[test]
fn register_write_is_low_byte_first() {
    assert_eq!(
        tca9535_write_reg(0x02, 0xABCD),
        PanelOp::ExpanderWrite { register: 0x02, low: 0xCD, high: 0xAB }
    );
    assert_eq!(
        tca9535_write_reg(0x06, 0x0001),
        PanelOp::ExpanderWrite { register: 0x06, low: 0x01, high: 0x00 }
    );
}

#[test]
fn nine_bits_go_out_most_significant_first() {
    let mut ops = Vec::new();
    spi_send_data(0x01A5, &mut ops);
    assert_eq!(ops.len(), 45);
    let levels: Vec<bool> = ops
        .iter()
        .filter_map(|op| match op {
            PanelOp::SetData(level) => Some(*level),
            _ => None,
        })
        .collect();
    assert_eq!(
        levels,
        vec![true, true, false, true, false, false, true, false, true]
    );
}

#[test]
fn each_bit_is_set_before_its_clock_pulse() {
    let mut ops = Vec::new();
    spi_send_data(0x0100, &mut ops);
    assert_eq!(
        &ops[0..5],
        &[
            PanelOp::SetData(true),
            PanelOp::SetClock(true),
            PanelOp::DelayMicros(10),
            PanelOp::SetClock(false),
            PanelOp::DelayMicros(10),
        ]
    );
    assert_eq!(ops[5], PanelOp::SetData(false));
}

#[test]
fn bits_above_the_ninth_are_not_sent() {
    let mut a = Vec::new();
    let mut b = Vec::new();
    spi_send_data(0x20FF, &mut a);
    spi_send_data(0x00FF, &mut b);
    assert_eq!(a, b);
}

#[test]
fn sending_appends_to_what_is_there() {
    let mut ops = vec![PanelOp::SetBacklight(false)];
    spi_send_data(0, &mut ops);
    assert_eq!(ops.len(), 46);
    assert_eq!(ops[0], PanelOp::SetBacklight(false));
}

#[test]
fn set_level_rewrites_the_whole_output_port() {
    let mut ops = Vec::new();
    let mut driver = DisplayDriver::new(&mut ops);
    ops.clear();
    driver.tca9535_set_level(4, false, &mut ops);
    assert_eq!(ops, vec![PanelOp::ExpanderWrite { register: 0x02, low: 0x20, high: 0x00 }]);
    ops.clear();
    driver.tca9535_set_level(15, true, &mut ops);
    assert_eq!(ops, vec![PanelOp::ExpanderWrite { register: 0x02, low: 0x20, high: 0x80 }]);
    ops.clear();
    driver.tca9535_set_level(4, true, &mut ops);
    assert_eq!(ops, vec![PanelOp::ExpanderWrite { register: 0x02, low: 0x30, high: 0x80 }]);
}

#[test]
fn data_write_frames_the_byte_behind_a_set_marker() {
    let mut ops = Vec::new();
    let mut driver = DisplayDriver::new(&mut ops);
    ops.clear();
    driver.spi_write_data(0x3B, &mut ops);
    assert_eq!(ops.len(), 55);
    assert_eq!(ops[0], PanelOp::ExpanderWrite { register: 0x02, low: 0x20, high: 0x00 });
    assert_eq!(ops[53], PanelOp::ExpanderWrite { register: 0x02, low: 0x30, high: 0x00 });
    assert_eq!(received(&ops), vec![(false, 0x13B)]);
}

#[test]
fn data_write_sends_only_the_low_byte() {
    let mut ops = Vec::new();
    let mut driver = DisplayDriver::new(&mut ops);
    ops.clear();
    driver.spi_write_data(0xAB3B, &mut ops);
    assert_eq!(received(&ops), vec![(false, 0x13B)]);
}

#[test]
fn command_write_goes_out_as_two_units() {
    let mut ops = Vec::new();
    let mut driver = DisplayDriver::new(&mut ops);
    ops.clear();
    driver.spi_write_comm(0x00C0, &mut ops);
    assert_eq!(ops.len(), 103);
    assert_eq!(received(&ops), vec![(false, 0x000), (false, 0x0C0)]);

    ops.clear();
    driver.spi_write_comm(0x12C0, &mut ops);
    assert_eq!(received(&ops), vec![(false, 0x012), (false, 0x0C0)]);
}

#[test]
fn expander_setup_makes_two_pins_idle_outputs() {
    let mut ops = Vec::new();
    let _driver = DisplayDriver::new(&mut ops);
    assert_eq!(
        &ops[0..6],
        &[
            PanelOp::SetBacklight(false),
            PanelOp::SetClock(true),
            PanelOp::SetData(true),
            PanelOp::ExpanderRead { register: 0x00 },
            PanelOp::ExpanderWrite { register: 0x06, low: 0xCF, high: 0xFF },
            PanelOp::ExpanderWrite { register: 0x02, low: 0x30, high: 0x00 },
        ]
    );
}

#[test]
fn bring_up_starts_with_the_reset_pulse() {
    let mut ops = Vec::new();
    let _driver = DisplayDriver::new(&mut ops);
    assert_eq!(
        &ops[6..10],
        &[
            PanelOp::ExpanderWrite { register: 0x02, low: 0x10, high: 0x00 },
            PanelOp::DelayMillis(10),
            PanelOp::ExpanderWrite { register: 0x02, low: 0x30, high: 0x00 },
            PanelOp::DelayMillis(100),
        ]
    );
}

#[test]
fn bring_up_ends_with_the_lines_parked_high() {
    let mut ops = Vec::new();
    let _driver = DisplayDriver::new(&mut ops);
    let n = ops.len();
    assert_eq!(
        &ops[n - 3..],
        &[
            PanelOp::ExpanderWrite { register: 0x02, low: 0x30, high: 0x00 },
            PanelOp::SetClock(true),
            PanelOp::SetData(true),
        ]
    );
}

#[test]
fn bring_up_has_the_expected_number_of_operations() {
    let mut ops = Vec::new();
    let _driver = DisplayDriver::new(&mut ops);
    // 6 for the lines and the expander, 4 for the reset pulse, 103 for each
    // of 38 commands, 55 for each of 167 parameters, 3 pauses, 3 to park.
    assert_eq!(ops.len(), 6 + 4 + 38 * 103 + 167 * 55 + 3 + 3);
}

#[test]
fn panel_receives_the_program_byte_for_byte() {
    let mut ops = Vec::new();
    let mut driver = DisplayDriver::new(&mut ops);
    ops.clear();
    driver.st7701s_init_sequence(&mut ops);
    let got = received(&ops);

    let mut want: Vec<(bool, u32)> = vec![(true, 10), (true, 100)];
    for word in ST7701S_PROGRAM.iter() {
        if word & 0x8000 != 0 {
            want.push((true, (word & 0x7FFF) as u32));
        } else if word & 0x0100 != 0 {
            want.push((false, *word as u32));
        } else {
            want.push((false, (*word >> 8) as u32));
            want.push((false, (*word & 0xFF) as u32));
        }
    }
    assert_eq!(got, want);
}

#[test]
fn program_opens_with_the_page_select_and_closes_with_display_on() {
    assert_eq!(ST7701S_PROGRAM.len(), PROGRAM_LEN);
    assert_eq!(&ST7701S_PROGRAM[0..6], &[0x00FF, 0x0177, 0x0101, 0x0100, 0x0100, 0x0110]);
    let n = ST7701S_PROGRAM.len();
    assert_eq!(
        &ST7701S_PROGRAM[n - 7..],
        &[0x003A, 0x0160, 0x0021, 0x0011, 0x8078, 0x0029, 0x8078]
    );
}

#[test]
fn program_holds_the_gamma_and_voltage_tables() {
    // Positive gamma of page 1.
    assert_eq!(
        &ST7701S_PROGRAM[19..36],
        &[
            0x00B0, 0x0100, 0x0111, 0x0118, 0x010E, 0x0111, 0x0106, 0x0107, 0x0108, 0x0107,
            0x0122, 0x0104, 0x0112, 0x010F, 0x01AA, 0x0131, 0x0118,
        ]
    );
    let commands = ST7701S_PROGRAM.iter().filter(|w| **w < 0x0100).count();
    let parameters = ST7701S_PROGRAM.iter().filter(|w| **w & 0x8100 == 0x0100).count();
    let pauses: Vec<u16> =
        ST7701S_PROGRAM.iter().filter(|w| **w & 0x8000 != 0).map(|w| w & 0x7FFF).collect();
    assert_eq!(commands, 38);
    assert_eq!(parameters, 167);
    assert_eq!(pauses, vec![20, 120, 120]);
}

#[test]
fn new_driver_has_a_cleared_full_frame() {
    let mut ops = Vec::new();
    let driver = DisplayDriver::new(&mut ops);
    let frame = driver.get_framebuffer().unwrap();
    assert_eq!(frame.len(), FRAME_PIXELS);
    assert_eq!(frame.len(), DISP_HOR_RES as usize * DISP_VER_RES as usize);
    assert!(frame.iter().all(|p| *p == 0));
}

#[test]
fn allocating_again_clears_the_frame() {
    let mut driver = ready_driver();
    driver.fill_screen(0x1234);
    driver.allocate_framebuffer();
    let frame = driver.get_framebuffer().unwrap();
    assert_eq!(frame.len(), FRAME_PIXELS);
    assert!(frame.iter().all(|p| *p == 0));
}

#[test]
fn pixel_lands_at_row_times_width_plus_column() {
    let mut driver = ready_driver();
    driver.draw_pixel(3, 2, 0xF800);
    let frame = driver.get_framebuffer().unwrap();
    assert_eq!(frame[2 * 480 + 3], 0xF800);
    assert_eq!(frame.iter().filter(|p| **p != 0).count(), 1);
}

#[test]
fn corner_pixels_are_drawn() {
    let mut driver = ready_driver();
    driver.draw_pixel(0, 0, 1);
    driver.draw_pixel(479, 479, 2);
    let frame = driver.get_framebuffer().unwrap();
    assert_eq!(frame[0], 1);
    assert_eq!(frame[FRAME_PIXELS - 1], 2);
}

#[test]
fn pixels_off_the_panel_are_dropped() {
    let mut driver = ready_driver();
    driver.draw_pixel(480, 0, 0xFFFF);
    driver.draw_pixel(0, 480, 0xFFFF);
    driver.draw_pixel(65535, 65535, 0xFFFF);
    assert!(driver.get_framebuffer().unwrap().iter().all(|p| *p == 0));
}

#[test]
fn fill_sets_every_pixel() {
    let mut driver = ready_driver();
    driver.draw_pixel(7, 7, 1);
    driver.fill_screen(0x0841);
    assert!(driver.get_framebuffer().unwrap().iter().all(|p| *p == 0x0841));
}

#[test]
fn flush_needs_the_panel() {
    let mut ops = Vec::new();
    let driver = DisplayDriver::new(&mut ops);
    assert_eq!(driver.flush(0, 0, 480, 480), Err(DisplayError::NotInitialized));
}

#[test]
fn flush_asks_for_the_region_and_its_offset() {
    let driver = ready_driver();
    assert_eq!(
        driver.flush(0, 0, 480, 480),
        Ok(BlitRequest { x_start: 0, y_start: 0, x_end: 480, y_end: 480, offset: 0 })
    );
    assert_eq!(
        driver.flush(10, 20, 100, 50),
        Ok(BlitRequest { x_start: 10, y_start: 20, x_end: 110, y_end: 70, offset: 20 * 480 + 10 })
    );
}

#[test]
fn transfer_status_other_than_ok_is_a_transfer_error() {
    assert_eq!(DisplayDriver::flush_status(ESP_OK), Ok(()));
    assert_eq!(DisplayDriver::flush_status(-1), Err(DisplayError::TransferError));
    assert_eq!(DisplayDriver::flush_status(0x103), Err(DisplayError::TransferError));
}

#[test]
fn panel_calls_follow_each_other_and_end_with_the_backlight() {
    let mut ops = Vec::new();
    let mut driver = DisplayDriver::new(&mut ops);
    ops.clear();
    assert_eq!(driver.init_rgb_panel(PanelCall::Create, ESP_OK, &mut ops), Ok(Some(PanelCall::Reset)));
    assert_eq!(driver.init_rgb_panel(PanelCall::Reset, ESP_OK, &mut ops), Ok(Some(PanelCall::Init)));
    assert_eq!(driver.init_rgb_panel(PanelCall::Init, ESP_OK, &mut ops), Ok(Some(PanelCall::DisplayOn)));
    assert!(ops.is_empty());
    assert_eq!(driver.flush(0, 0, 1, 1), Err(DisplayError::NotInitialized));
    assert_eq!(driver.init_rgb_panel(PanelCall::DisplayOn, ESP_OK, &mut ops), Ok(None));
    assert_eq!(ops, vec![PanelOp::SetBacklight(true)]);
    assert!(driver.flush(0, 0, 1, 1).is_ok());
}

#[test]
fn failed_panel_call_is_fatal() {
    let mut ops = Vec::new();
    let mut driver = DisplayDriver::new(&mut ops);
    ops.clear();
    assert_eq!(
        driver.init_rgb_panel(PanelCall::Reset, 0x101, &mut ops),
        Err(DisplayError::PanelCallFailed { call: PanelCall::Reset, status: 0x101 })
    );
    assert_eq!(
        driver.init_rgb_panel(PanelCall::DisplayOn, -1, &mut ops),
        Err(DisplayError::PanelCallFailed { call: PanelCall::DisplayOn, status: -1 })
    );
    assert!(ops.is_empty());
    assert_eq!(driver.flush(0, 0, 480, 480), Err(DisplayError::NotInitialized));
}

#[test]
fn bring_up_runs_to_the_end_when_nothing_fails() {
    let mut ops = Vec::new();
    let _driver = DisplayDriver::new(&mut ops);
    let mut state = PanelState::new();
    let mut done = 0usize;
    assert_eq!(state.status(&ops), Ok(false));
    while let Some(op) = state.next(&ops) {
        assert_eq!(op, ops[done]);
        state.advance(&ops, Ok(()));
        done += 1;
    }
    assert_eq!(done, ops.len());
    assert_eq!(state.cursor(), ops.len());
    assert_eq!(state.status(&ops), Ok(true));
    assert!(state.chip_select());
    assert!(state.reset());
    assert!(state.clock());
    assert!(state.data());
    assert!(!state.backlight());
}

#[test]
fn bring_up_tracks_the_reset_pulse() {
    let mut ops = Vec::new();
    let _driver = DisplayDriver::new(&mut ops);
    let mut state = PanelState::new();
    for _ in 0..6 {
        state.advance(&ops, Ok(()));
    }
    assert!(state.reset());
    assert!(state.chip_select());
    state.advance(&ops, Ok(()));
    assert!(!state.reset());
    assert!(state.chip_select());
    state.advance(&ops, Ok(()));
    state.advance(&ops, Ok(()));
    assert!(state.reset());
}

#[test]
fn bring_up_stops_for_good_at_the_first_fault() {
    let mut ops = Vec::new();
    let _driver = DisplayDriver::new(&mut ops);
    let mut state = PanelState::new();
    for _ in 0..5 {
        state.advance(&ops, Ok(()));
    }
    state.advance(&ops, Err(BusFault::Nack));
    assert_eq!(state.cursor(), 5);
    assert_eq!(state.next(&ops), None);
    assert_eq!(state.status(&ops), Err(DisplayError::BusNack));
    state.advance(&ops, Ok(()));
    assert_eq!(state.cursor(), 5);
    assert_eq!(state.status(&ops), Err(DisplayError::BusNack));
}

#[test]
fn bus_timeout_is_reported_as_such() {
    let ops = vec![PanelOp::ExpanderRead { register: 0 }];
    let mut state = PanelState::new();
    state.advance(&ops, Err(BusFault::Timeout));
    assert_eq!(state.status(&ops), Err(DisplayError::BusTimeout));
}

#[test]
fn empty_bring_up_is_finished_at_once() {
    let ops: Vec<PanelOp> = Vec::new();
    let mut state = PanelState::new();
    assert_eq!(state.next(&ops), None);
    assert_eq!(state.status(&ops), Ok(true));
    state.advance(&ops, Err(BusFault::Nack));
    assert_eq!(state.status(&ops), Ok(true));
}
