use sensor_rt::depth::DepthMap;
use sensor_rt::frame::{repack_depth, repack_rows, row_pitch};
use sensor_rt::stamp::{FrameMeta, Stamped};

#[test]
fn repack_rows_accepts_unpadded_last_row() {
    // 2 rows of 3 bytes, stride 4, last row unpadded: 4 + 3 = 7 bytes suffice.
    let data = [1u8, 2, 3, 0xEE, 4, 5, 6];
    assert_eq!(repack_rows(&data, 3, 2, 4).unwrap(), vec![1, 2, 3, 4, 5, 6]);
    assert!(repack_rows(&data[..6], 3, 2, 4).is_none());
    assert!(repack_rows(&data, 3, 0, 4).is_none());
    // Tight input is a straight copy.
    assert_eq!(
        repack_rows(&data[..6], 3, 2, 0).unwrap(),
        vec![1, 2, 3, 0xEE, 4, 5]
    );
}

#[test]
fn repack_honours_padded_stride() {
    // 3x2 depth, rows padded to 8 bytes (stride 8, row 6).
    let mut data = Vec::new();
    for y in 0..2u16 {
        for x in 0..3u16 {
            data.extend_from_slice(&(y * 10 + x).to_le_bytes());
        }
        data.extend_from_slice(&[0xEE, 0xEE]); // padding
    }
    assert_eq!(
        repack_depth(&data, 3, 2, 8).unwrap(),
        vec![0, 1, 2, 10, 11, 12]
    );
    // Tight (stride 0 = "as reported") also works.
    let tight: Vec<u8> = [5u16, 6, 7, 8]
        .iter()
        .flat_map(|v| v.to_le_bytes())
        .collect();
    assert_eq!(repack_depth(&tight, 2, 2, 0).unwrap(), vec![5, 6, 7, 8]);
    // Short buffer: skip.
    assert!(repack_depth(&tight[..6], 2, 2, 0).is_none());
    // Stride smaller than a row: skip.
    assert!(repack_depth(&tight, 2, 2, 2).is_none());
}

#[test]
fn row_pitch_rejects_malformed_frames() {
    assert_eq!(row_pitch(3, 2, 0, 6), Some(3));
    assert_eq!(row_pitch(3, 2, 3, 6), Some(3));
    assert_eq!(row_pitch(3, 2, 4, 7), Some(4));
    assert_eq!(row_pitch(3, 2, 4, 6), None);
    assert_eq!(row_pitch(0, 2, 4, 6), None);
    assert_eq!(row_pitch(3, 0, 4, 6), None);
    assert_eq!(row_pitch(3, 1, 2, 6), None);
    assert_eq!(row_pitch(2, usize::MAX, usize::MAX, 6), None);
}

#[test]
fn padding_never_reaches_the_output() {
    let a = [1u8, 2, 0xAA, 3, 4, 0xAA];
    let b = [1u8, 2, 0xBB, 3, 4, 0xCC];
    assert_eq!(repack_rows(&a, 2, 2, 3), repack_rows(&b, 2, 2, 3));
    // However far apart the rows are.
    let wide = [1u8, 2, 0xDD, 0xDD, 0xDD, 3, 4];
    assert_eq!(repack_rows(&wide, 2, 2, 5), repack_rows(&a, 2, 2, 3));
    // What is packed stays packed.
    let packed = repack_rows(&wide, 2, 2, 5).unwrap();
    assert_eq!(repack_rows(&packed, 2, 2, 0), Some(packed));
}

#[test]
fn depth_samples_are_pairs_of_repacked_bytes() {
    let data = [0x34u8, 0x12, 0x78, 0x56, 0xEE, 0xEE, 0xff, 0x00, 0x00, 0xff];
    let bytes = repack_rows(&data, 4, 2, 6).unwrap();
    let depth = repack_depth(&data, 2, 2, 6).unwrap();
    assert_eq!(depth, vec![0x1234, 0x5678, 0x00ff, 0xff00]);
    let pairs: Vec<u16> = bytes
        .chunks_exact(2)
        .map(|b| u16::from_le_bytes([b[0], b[1]]))
        .collect();
    assert_eq!(depth, pairs);
    assert!(repack_depth(&[], u32::MAX, u32::MAX, 0).is_none());
    assert!(repack_depth(&data, 0, 2, 6).is_none());
}

#[test]
fn stamps_travel_with_the_data() {
    let meta = FrameMeta { seq: 7, pts_ns: Some(99), source_id: Some(3) };
    let s = meta.stamp(20u32).map(|v| v + 1).map(|v| v.to_string());
    assert_eq!(s.meta, meta);
    assert_eq!(s.data, "21");
    assert_eq!(Stamped::new(meta, 5u8).data, 5);
    assert_eq!(
        FrameMeta::default(),
        FrameMeta { seq: 0, pts_ns: None, source_id: None }
    );
}

#[test]
fn depth_map_samples_in_bounds() {
    let data = [0u16, 100, 200, 0, 300, 400, 9999];
    let map = DepthMap::borrowed(&data, 3, 2);
    assert_eq!((map.width(), map.height()), (3, 2));
    assert_eq!(map.as_slice(), &data[..6]);
    assert_eq!(map.mm_at(1, 0), Some(100));
    assert_eq!(map.mm_at(2, 1), Some(400));
    assert_eq!(map.mm_at(0, 0), None);
    assert_eq!(map.mm_at(0, 1), None);
    assert_eq!(map.mm_at(3, 0), None);
    assert_eq!(map.mm_at(0, 2), None);
    assert_eq!(map.valid_fraction(), (4, 6));
    let readings = (0..2)
        .flat_map(|v| (0..3).map(move |u| (u, v)))
        .filter(|&(u, v)| map.mm_at(u, v).is_some())
        .count();
    assert_eq!(readings, 4);
    assert_eq!(DepthMap::borrowed(&[0; 6], 3, 2).valid_fraction(), (0, 6));
    assert_eq!(DepthMap::borrowed(&[7; 6], 3, 2).valid_fraction(), (6, 6));
    let empty = DepthMap::borrowed(&data, 0, 5);
    assert_eq!(empty.valid_fraction(), (0, 0));
    assert_eq!(empty.mm_at(0, 0), None);
}
