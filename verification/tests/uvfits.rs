use hifitime::Epoch;
use marlu::io::uvfits::{
    antenna_rows, antenna_table_columns, antenna_table_name, assemble_row, field_name,
    get_truncated_date_string, group_axes, group_params, indexed_key, object_name,
    pack_visibility, reference_pixel, row_baseline_id, row_payload, truncated_date_string,
    NUM_GROUP_PARAMS,
};
use marlu::{
    decode_uvfits_baseline, encode_uvfits_baseline, RowCounter, UvfitsWriteError, WriterPhase,
};

#[test]
fn encode_small_antennas_uses_256() {
    assert_eq!(encode_uvfits_baseline(1, 1), 257);
    assert_eq!(encode_uvfits_baseline(1, 2), 258);
    assert_eq!(encode_uvfits_baseline(3, 255), 3 * 256 + 255);
    assert_eq!(encode_uvfits_baseline(128, 128), 128 * 256 + 128);
}

#[test]
fn encode_large_second_antenna_uses_miriad() {
    assert_eq!(encode_uvfits_baseline(1, 256), 2048 + 256 + 65_536);
    assert_eq!(encode_uvfits_baseline(2, 300), 2 * 2048 + 300 + 65_536);
    assert_eq!(encode_uvfits_baseline(2048, 2047), 2048 * 2048 + 2047 + 65_536);
}

#[test]
fn decode_both_forms() {
    assert_eq!(decode_uvfits_baseline(257), (1, 1));
    assert_eq!(decode_uvfits_baseline(258), (1, 2));
    assert_eq!(decode_uvfits_baseline(65_534), (255, 254));
    assert_eq!(decode_uvfits_baseline(65_536), (0, 0));
    assert_eq!(decode_uvfits_baseline(67_840), (1, 256));
    assert_eq!(decode_uvfits_baseline(2 * 2048 + 300 + 65_536), (2, 300));
}

#[test]
fn baseline_boundary_at_255_and_256() {
    assert_eq!(decode_uvfits_baseline(encode_uvfits_baseline(1, 255)), (1, 255));
    assert_eq!(decode_uvfits_baseline(encode_uvfits_baseline(1, 256)), (1, 256));
    assert_eq!(decode_uvfits_baseline(encode_uvfits_baseline(255, 254)), (255, 254));
    assert_eq!(decode_uvfits_baseline(encode_uvfits_baseline(255, 256)), (255, 256));
    assert_eq!(decode_uvfits_baseline(encode_uvfits_baseline(256, 256)), (256, 256));
    // The id of (255, 255) is the one value that neither form reads.
    assert_eq!(encode_uvfits_baseline(255, 255), 65_535);
}

#[test]
fn baseline_round_trip_over_all_pairs() {
    for ant1 in 1..=2048usize {
        for ant2 in 1..=2048usize {
            let survives = if ant2 > 255 {
                ant2 < 2048
            } else {
                ant1 <= 255 && !(ant1 == 255 && ant2 == 255)
            };
            let bl = encode_uvfits_baseline(ant1, ant2);
            if bl == 65_535 {
                assert!(!survives);
                continue;
            }
            assert_eq!(decode_uvfits_baseline(bl) == (ant1, ant2), survives);
        }
    }
}

#[test]
fn baseline_round_trip_fails_where_expected() {
    // A first antenna above 255 with a small second one is read as Miriad.
    assert_eq!(decode_uvfits_baseline(encode_uvfits_baseline(256, 1)), (0, 1));
    // The second antenna 2048 spills into the first.
    assert_eq!(decode_uvfits_baseline(encode_uvfits_baseline(1, 2048)), (2, 0));
}

#[test]
fn row_baseline_id_counts_tiles_from_one() {
    assert_eq!(row_baseline_id(0, 1), 258);
    assert_eq!(row_baseline_id(0, 0), 257);
    assert_eq!(row_baseline_id(1, 2), 2 * 256 + 3);
    assert_eq!(row_baseline_id(0, 255), 2048 + 256 + 65_536);
}

#[test]
fn truncated_date_pads_month_and_day() {
    assert_eq!(truncated_date_string(2017, 12, 1), "2017-12-01T00:00:00.0");
    assert_eq!(truncated_date_string(2013, 10, 15), "2013-10-15T00:00:00.0");
    assert_eq!(truncated_date_string(2000, 1, 1), "2000-01-01T00:00:00.0");
    assert_eq!(truncated_date_string(987, 3, 9), "987-03-09T00:00:00.0");
    assert_eq!(truncated_date_string(-44, 3, 15), "-44-03-15T00:00:00.0");
    assert_eq!(truncated_date_string(0, 0, 0), "0-00-00T00:00:00.0");
    assert_eq!(truncated_date_string(i32::MIN, 255, 100), "-2147483648-255-100T00:00:00.0");
}

#[test]
fn truncated_date_matches_std_formatting() {
    for (year, month, day) in [(2021i32, 2u8, 16u8), (1999, 12, 31), (-1, 1, 1), (12345, 10, 9)] {
        assert_eq!(
            truncated_date_string(year, month, day),
            format!("{}-{:02}-{:02}T00:00:00.0", year, month, day)
        );
    }
}

#[test]
fn truncated_date_of_an_epoch() {
    let epoch = Epoch::from_gregorian_utc(2017, 12, 1, 14, 54, 38, 0);
    assert_eq!(get_truncated_date_string(epoch), "2017-12-01T00:00:00.0");
    let epoch = Epoch::from_gregorian_utc(2013, 10, 15, 13, 48, 32, 500);
    assert_eq!(get_truncated_date_string(epoch), "2013-10-15T00:00:00.0");
    let epoch = Epoch::from_gregorian_utc(2000, 1, 1, 0, 0, 0, 0);
    assert_eq!(get_truncated_date_string(epoch), "2000-01-01T00:00:00.0");
}

#[test]
fn truncated_date_of_a_gps_epoch() {
    // GPS second 1196175296 is 2017-12-01T14:54:38 UTC.
    let epoch = Epoch::from_gpst_seconds(1_196_175_296.0);
    assert_eq!(get_truncated_date_string(epoch), "2017-12-01T00:00:00.0");
    // GPS second 1065880128 is 2013-10-15T13:48:32 UTC.
    let epoch = Epoch::from_gpst_seconds(1_065_880_128.0);
    assert_eq!(get_truncated_date_string(epoch), "2013-10-15T00:00:00.0");
}

#[test]
fn group_axes_hold_the_channels() {
    assert_eq!(group_axes(2), [0, 3, 4, 2, 1, 1]);
    assert_eq!(group_axes(768), [0, 3, 4, 768, 1, 1]);
    assert_eq!(group_axes(0), [0, 3, 4, 0, 1, 1]);
}

#[test]
fn group_params_in_file_order() {
    let params = group_params();
    assert_eq!(params.len(), NUM_GROUP_PARAMS);
    assert_eq!(NUM_GROUP_PARAMS, 5);
    let names: Vec<&str> = params.iter().map(|p| p.name).collect();
    assert_eq!(names, vec!["UU", "VV", "WW", "BASELINE", "DATE"]);
    for (i, param) in params.iter().enumerate() {
        assert_eq!(param.ptype_key, format!("PTYPE{}", i + 1));
        assert_eq!(param.pscal_key, format!("PSCAL{}", i + 1));
        assert_eq!(param.pzero_key, format!("PZERO{}", i + 1));
        assert_eq!(param.zero_is_date, param.name == "DATE");
    }
}

#[test]
fn indexed_keys() {
    assert_eq!(indexed_key("PTYPE", 1), "PTYPE1");
    assert_eq!(indexed_key("CRVAL", 4), "CRVAL4");
    assert_eq!(indexed_key("TTYPE", 11), "TTYPE11");
    assert_eq!(indexed_key("", 0), "0");
    assert_eq!(indexed_key("N", 1234567890), "N1234567890");
}

#[test]
fn reference_pixel_counts_from_one() {
    assert_eq!(reference_pixel(0), 1);
    assert_eq!(reference_pixel(1), 2);
    assert_eq!(reference_pixel(383), 384);
}

#[test]
fn object_name_defaults_to_undefined() {
    assert_eq!(object_name(None), "Undefined");
    assert_eq!(object_name(Some("ForA".to_string())), "ForA");
    assert_eq!(object_name(Some(String::new())), "");
}

#[test]
fn field_name_drops_the_last_part() {
    assert_eq!(field_name("ForA_145"), "ForA");
    assert_eq!(field_name("high_season1_2456528"), "high_season1");
    assert_eq!(field_name("FDS_DEC-26.7_121"), "FDS_DEC-26.7");
    assert_eq!(field_name("NoUnderscore"), "NoUnderscore");
    assert_eq!(field_name("trailing_"), "trailing");
    assert_eq!(field_name("_leading"), "");
    assert_eq!(field_name(""), "");
    assert_eq!(field_name("__"), "_");
}

#[test]
fn antenna_table_has_the_aips_columns() {
    assert_eq!(antenna_table_name(), "AIPS AN");
    let columns = antenna_table_columns();
    assert_eq!(columns.len(), 11);
    let names: Vec<&str> = columns.iter().map(|c| c.name).collect();
    assert_eq!(
        names,
        vec![
            "ANNAME", "STABXYZ", "NOSTA", "MNTSTA", "STAXOF", "POLTYA", "POLAA", "POLCALA",
            "POLTYB", "POLAB", "POLCALB"
        ]
    );
    let formats: Vec<&str> = columns.iter().map(|c| c.format).collect();
    assert_eq!(
        formats,
        vec!["8A", "3D", "1J", "1J", "1E", "1A", "1E", "3E", "1A", "1E", "3E"]
    );
    let units: Vec<&str> = columns.iter().map(|c| c.unit).collect();
    assert_eq!(
        units,
        vec!["", "METERS", "", "", "METERS", "", "DEGREES", "", "", "DEGREES", ""]
    );
}

#[test]
fn antenna_rows_keep_the_order_of_the_names() {
    let names = vec!["Tile1".to_string(), "Tile2".to_string(), "Tile3".to_string()];
    let rows = antenna_rows(&names, 3);
    assert_eq!(rows.len(), 3);
    for (i, row) in rows.iter().enumerate() {
        assert_eq!(row.row, i as i64 + 1);
        assert_eq!(row.station, i as i32 + 1);
        assert_eq!(row.name, names[i]);
        assert_eq!(row.mount, 0);
        assert_eq!(row.pol_type_a, "X");
        assert_eq!(row.pol_angle_a, 0);
        assert_eq!(row.pol_cal_a, 0);
        assert_eq!(row.pol_type_b, "Y");
        assert_eq!(row.pol_angle_b, 90);
        assert_eq!(row.pol_cal_b, 0);
    }
}

#[test]
fn antenna_rows_stop_at_the_positions() {
    let names = vec!["A".to_string(), "B".to_string(), "C".to_string()];
    let rows = antenna_rows(&names, 2);
    assert_eq!(rows.len(), 2);
    assert_eq!(rows[1].name, "B");
    assert!(antenna_rows(&names, 0).is_empty());
}

#[test]
fn assemble_row_puts_params_first() {
    let row = assemble_row(1.0f32, 2.0, 3.0, 258.0, 0.5, &[10.0, 11.0, 12.0]);
    assert_eq!(row, vec![1.0, 2.0, 3.0, 258.0, 0.5, 10.0, 11.0, 12.0]);
    let row = assemble_row(1u8, 2, 3, 4, 5, &[]);
    assert_eq!(row, vec![1, 2, 3, 4, 5]);
}

#[test]
fn pack_visibility_reorders_polarisations() {
    // XX, XY, YX, YY as (re, im) pairs.
    let jones = [1.0f32, 2.0, 3.0, 4.0, 5.0, 6.0, 7.0, 8.0];
    let packed = pack_visibility(&jones, 0.25);
    assert_eq!(
        packed,
        [1.0, 2.0, 0.25, 7.0, 8.0, 0.25, 3.0, 4.0, 0.25, 5.0, 6.0, 0.25]
    );
}

#[test]
fn pack_visibility_keeps_values_bit_for_bit() {
    let jones = [f32::NAN, -0.0, f32::INFINITY, 1e-40, -1.5, 0.0, f32::MIN, f32::MAX];
    let packed = pack_visibility(&jones, -1.0);
    let order = [0usize, 1, 6, 7, 2, 3, 4, 5];
    for pol in 0..4 {
        assert_eq!(packed[3 * pol].to_bits(), jones[order[2 * pol]].to_bits());
        assert_eq!(packed[3 * pol + 1].to_bits(), jones[order[2 * pol + 1]].to_bits());
        assert_eq!(packed[3 * pol + 2], -1.0);
    }
}

#[test]
fn row_payload_without_averaging_is_the_input_reordered() {
    let jones = [
        [1.0f32, 2.0, 3.0, 4.0, 5.0, 6.0, 7.0, 8.0],
        [11.0, 12.0, 13.0, 14.0, 15.0, 16.0, 17.0, 18.0],
    ];
    let weights = [1.0f32, 2.0];
    let payload = row_payload(&jones, &weights);
    assert_eq!(
        payload,
        vec![
            1.0, 2.0, 1.0, 7.0, 8.0, 1.0, 3.0, 4.0, 1.0, 5.0, 6.0, 1.0, //
            11.0, 12.0, 2.0, 17.0, 18.0, 2.0, 13.0, 14.0, 2.0, 15.0, 16.0, 2.0,
        ]
    );
    let nothing: [[f32; 8]; 0] = [];
    assert!(row_payload(&nothing, &[]).is_empty());
}

#[test]
fn row_counter_walks_through_its_phases() {
    let mut counter = RowCounter::new(1, 3);
    assert_eq!(counter.total_num_rows(), 3);
    assert_eq!(counter.current_num_rows(), 0);
    assert_eq!(counter.remaining_rows(), 3);
    assert_eq!(counter.phase(), WriterPhase::Created);
    for row in 0..3 {
        assert_eq!(counter.next_group(), Ok(row + 1));
        counter.row_written();
        assert_eq!(counter.current_num_rows(), row as usize + 1);
        if row < 2 {
            assert_eq!(counter.phase(), WriterPhase::WritingRows);
        }
    }
    assert_eq!(counter.phase(), WriterPhase::RowsComplete);
    assert_eq!(counter.remaining_rows(), 0);
    assert_eq!(counter.finish(), Ok(()));
}

#[test]
fn row_counter_refuses_the_antenna_table_early() {
    let counter = RowCounter::new(2, 3);
    assert_eq!(
        counter.finish(),
        Err(UvfitsWriteError::NotEnoughRowsWritten { current: 0, total: 6 })
    );
    let mut counter = RowCounter::new(2, 3);
    for _ in 0..5 {
        assert!(counter.next_group().is_ok());
        counter.row_written();
    }
    assert_eq!(
        counter.finish(),
        Err(UvfitsWriteError::NotEnoughRowsWritten { current: 5, total: 6 })
    );
}

#[test]
fn row_counter_refuses_a_row_too_many() {
    let mut counter = RowCounter::new(1, 1);
    assert_eq!(counter.next_group(), Ok(1));
    counter.row_written();
    assert_eq!(
        counter.next_group(),
        Err(UvfitsWriteError::BadRowNum { row_num: 1, num_rows: 1 })
    );
    // The refusal leaves the count as it was.
    assert_eq!(counter.current_num_rows(), 1);
    assert_eq!(counter.finish(), Ok(()));
}

#[test]
fn three_baselines_two_channels_end_to_end() {
    // One timestep, baselines (0,1), (0,2), (1,2), two channels.
    let baselines = [(0usize, 1usize), (0, 2), (1, 2)];
    let mut counter = RowCounter::new(1, baselines.len());
    assert_eq!(group_axes(2), [0, 3, 4, 2, 1, 1]);
    let mut rows: Vec<Vec<f32>> = Vec::new();
    for (i, &(ant1, ant2)) in baselines.iter().enumerate() {
        let base = 100.0 * i as f32;
        let jones = [
            [base + 1.0, base + 2.0, base + 3.0, base + 4.0, base + 5.0, base + 6.0, base + 7.0, base + 8.0],
            [base + 11.0, base + 12.0, base + 13.0, base + 14.0, base + 15.0, base + 16.0, base + 17.0, base + 18.0],
        ];
        let payload = row_payload(&jones, &[1.0, 1.0]);
        assert_eq!(payload.len(), 24);
        let group = counter.next_group().unwrap();
        assert_eq!(group, i as i64 + 1);
        let id = row_baseline_id(ant1, ant2) as f32;
        rows.push(assemble_row(0.0, 0.0, 0.0, id, 0.0, &payload));
        counter.row_written();
    }
    assert_eq!(rows.len(), 3);
    assert_eq!(rows[0][3], 258.0);
    assert_eq!(rows[1][3], 259.0);
    assert_eq!(rows[2][3], 515.0);
    assert_eq!(rows[2].len(), NUM_GROUP_PARAMS + 24);
    assert_eq!(&rows[1][5..8], &[101.0, 102.0, 1.0]);
    assert_eq!(&rows[1][8..11], &[107.0, 108.0, 1.0]);
    assert_eq!(counter.total_num_rows(), 3);
    let names = vec!["Tile1".to_string(), "Tile2".to_string(), "Tile3".to_string()];
    assert_eq!(counter.finish(), Ok(()));
    let table = antenna_rows(&names, 3);
    let written: Vec<&str> = table.iter().map(|r| r.name.as_str()).collect();
    assert_eq!(written, vec!["Tile1", "Tile2", "Tile3"]);
}
