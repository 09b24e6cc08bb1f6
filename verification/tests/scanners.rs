use psy::fallback::prefix_sum_fallback;
use psy::prefix_sum_index;
use psy::width16::prefix_sum_16_inner;
use psy::width8::prefix_sum_8_inner;

#[test]
fn test_fallback() {
    let offsets = [
        0, // 0
        1, // 1
        4, // 5
        8, // 13
    ];
    assert_eq!(prefix_sum_fallback(&offsets, 0), Ok((1, 1)));
    assert_eq!(prefix_sum_fallback(&offsets, 1), Ok((2, 5)));
    assert_eq!(prefix_sum_fallback(&offsets, 7), Ok((3, 13)));
    assert_eq!(prefix_sum_fallback(&offsets, 16), Err(13));
}

#[test]
fn test_simd_8() {
    let offsets = [
        0, //  0
        1, //  1
        0, //  1
        4, //  5
        8, // 13
        1, // 14
        2, // 16
        9, // 25
    ];
    assert_eq!(
        prefix_sum_8_inner(&offsets, 0),
        prefix_sum_fallback(&offsets, 0)
    );
    assert_eq!(
        prefix_sum_8_inner(&offsets, 1),
        prefix_sum_fallback(&offsets, 1)
    );
    assert_eq!(
        prefix_sum_8_inner(&offsets, 7),
        prefix_sum_fallback(&offsets, 7)
    );
    assert_eq!(
        prefix_sum_8_inner(&offsets, 16),
        prefix_sum_fallback(&offsets, 16)
    );
    assert_eq!(
        prefix_sum_8_inner(&offsets, 25),
        prefix_sum_fallback(&offsets, 25)
    );

    let offsets = [255; 8];
    assert_eq!(prefix_sum_8_inner(&offsets, 1 << 34), Err(255 * 8));
}

#[test]
fn test_simd_16() {
    let offsets = [
        0, //  0
        1, //  1
        0, //  1
        4, //  5
        8, // 13
        1, // 14
        2, // 16
        9, // 25
        8, // 33
        1, // 34
        4, // 38
        1, // 39
        3, // 42
        7, // 49
        1, // 50
        6, // 56
    ];
    assert_eq!(
        prefix_sum_16_inner(&offsets, 0),
        prefix_sum_fallback(&offsets, 0)
    );
    assert_eq!(
        prefix_sum_16_inner(&offsets, 1),
        prefix_sum_fallback(&offsets, 1)
    );
    assert_eq!(
        prefix_sum_16_inner(&offsets, 7),
        prefix_sum_fallback(&offsets, 7)
    );
    assert_eq!(
        prefix_sum_16_inner(&offsets, 16),
        prefix_sum_fallback(&offsets, 16)
    );
    assert_eq!(
        prefix_sum_16_inner(&offsets, 25),
        prefix_sum_fallback(&offsets, 25)
    );
    assert_eq!(
        prefix_sum_16_inner(&offsets, 52),
        prefix_sum_fallback(&offsets, 52)
    );
    assert_eq!(
        prefix_sum_16_inner(&offsets, 60),
        prefix_sum_fallback(&offsets, 60)
    );

    let offsets = [255; 16];
    assert_eq!(prefix_sum_16_inner(&offsets, 1 << 34), Err(255 * 16));
}

#[test]
fn test_combined() {
    assert_eq!(prefix_sum_index(&[], 0), Err(0));
    assert_eq!(prefix_sum_index(&[0], 0), Err(0));
    assert_eq!(prefix_sum_index(&[0], 12345), Err(0));
    assert_eq!(prefix_sum_index(&[1], 0), Ok((0, 1)));
    assert_eq!(prefix_sum_index(&[1], 1), Err(1));
    assert_eq!(prefix_sum_index(&[0, 1], 1), Err(1));
    assert_eq!(prefix_sum_index(&[0, 2], 1), Ok((1, 2)));

    let offsets = [
        0, //  0
        1, //  1
        0, //  1
        4, //  5
        8, // 13
        1, // 14
        2, // 16
        9, // 25
        8, // 33
        1, // 34
    ];
    assert_eq!(
        prefix_sum_index(&offsets, 0),
        prefix_sum_fallback(&offsets, 0)
    );
    assert_eq!(
        prefix_sum_index(&offsets, 1),
        prefix_sum_fallback(&offsets, 1)
    );
    assert_eq!(
        prefix_sum_index(&offsets, 7),
        prefix_sum_fallback(&offsets, 7)
    );
    assert_eq!(
        prefix_sum_index(&offsets, 16),
        prefix_sum_fallback(&offsets, 16)
    );
    assert_eq!(
        prefix_sum_index(&offsets, 25),
        prefix_sum_fallback(&offsets, 25)
    );
    assert_eq!(
        prefix_sum_index(&offsets, 34),
        prefix_sum_fallback(&offsets, 34)
    );
    assert_eq!(
        prefix_sum_index(&offsets, 35),
        prefix_sum_fallback(&offsets, 35)
    );
}
