use pod_cast::{something_went_wrong, try_cast_ref, try_cast_slice, Layout, PodCastError, Region};

const ALL: [PodCastError; 4] = [
    PodCastError::TargetAlignmentGreaterAndInputNotAligned,
    PodCastError::OutputSliceWouldHaveSlop,
    PodCastError::SizeMismatch,
    PodCastError::AlignmentMismatch,
];

#[test]
fn each_error_has_its_name() {
    assert_eq!(
        PodCastError::TargetAlignmentGreaterAndInputNotAligned.name(),
        "TargetAlignmentGreaterAndInputNotAligned"
    );
    assert_eq!(PodCastError::OutputSliceWouldHaveSlop.name(), "OutputSliceWouldHaveSlop");
    assert_eq!(PodCastError::SizeMismatch.name(), "SizeMismatch");
    assert_eq!(PodCastError::AlignmentMismatch.name(), "AlignmentMismatch");
}

#[test]
fn the_name_is_what_debug_prints() {
    for e in ALL {
        assert_eq!(e.name(), format!("{:?}", e));
        assert_eq!(e.to_string(), format!("{:?}", e));
    }
}

#[test]
fn the_four_kinds_are_distinct() {
    for (i, a) in ALL.iter().enumerate() {
        for (j, b) in ALL.iter().enumerate() {
            assert_eq!(a == b, i == j);
        }
    }
}

#[test]
fn an_error_is_copied_and_compared() {
    let e = PodCastError::SizeMismatch;
    let f = e;
    assert_eq!(e, f);
    assert_ne!(e, PodCastError::AlignmentMismatch);
}

#[test]
fn the_report_names_operation_and_error() {
    assert_eq!(something_went_wrong("cast", PodCastError::SizeMismatch), "cast>SizeMismatch");
    assert_eq!(
        something_went_wrong("cast_slice", PodCastError::OutputSliceWouldHaveSlop),
        "cast_slice>OutputSliceWouldHaveSlop"
    );
    assert_eq!(
        something_went_wrong(
            "from_bytes_mut",
            PodCastError::TargetAlignmentGreaterAndInputNotAligned
        ),
        "from_bytes_mut>TargetAlignmentGreaterAndInputNotAligned"
    );
    assert_eq!(
        something_went_wrong("", PodCastError::AlignmentMismatch),
        ">AlignmentMismatch"
    );
}

#[test]
fn the_report_of_a_refused_cast() {
    let u32l = Layout { size: 4, align: 4 };
    let u64l = Layout { size: 8, align: 8 };
    let e = try_cast_ref(u32l, u64l, 0x1004).unwrap_err();
    assert_eq!(
        something_went_wrong("cast_ref", e),
        "cast_ref>TargetAlignmentGreaterAndInputNotAligned"
    );
    let u16l = Layout { size: 2, align: 2 };
    let e = try_cast_slice(u16l, u32l, Region { addr: 0x1000, len: 3 }).unwrap_err();
    assert_eq!(something_went_wrong("cast_slice", e), "cast_slice>OutputSliceWouldHaveSlop");
}
