use pod_cast::{cast_mut, cast_ref, try_cast_mut, try_cast_ref, Layout, PodCastError};

const UNIT: Layout = Layout { size: 0, align: 1 };
const U8: Layout = Layout { size: 1, align: 1 };
const U16: Layout = Layout { size: 2, align: 2 };
const U32: Layout = Layout { size: 4, align: 4 };
const F32: Layout = Layout { size: 4, align: 4 };
const U64: Layout = Layout { size: 8, align: 8 };
const BYTES4: Layout = Layout { size: 4, align: 1 };
const BYTES8: Layout = Layout { size: 8, align: 1 };
const WORDS2: Layout = Layout { size: 8, align: 4 };

#[test]
fn four_byte_value_as_eight_byte_aligned_type_off_its_alignment() {
    assert_eq!(
        try_cast_ref(U32, U64, 0x1004),
        Err(PodCastError::TargetAlignmentGreaterAndInputNotAligned)
    );
}

#[test]
fn same_size_stricter_target_off_its_alignment() {
    assert_eq!(
        try_cast_ref(WORDS2, U64, 0x1004),
        Err(PodCastError::TargetAlignmentGreaterAndInputNotAligned)
    );
    assert_eq!(
        try_cast_ref(BYTES4, U32, 0x1001),
        Err(PodCastError::TargetAlignmentGreaterAndInputNotAligned)
    );
}

#[test]
fn same_size_stricter_target_on_its_alignment() {
    assert_eq!(try_cast_ref(WORDS2, U64, 0x1008), Ok(0x1008));
    assert_eq!(try_cast_ref(BYTES4, U32, 0x1004), Ok(0x1004));
    assert_eq!(try_cast_ref(BYTES4, U32, 0), Ok(0));
}

#[test]
fn same_layout_is_accepted_everywhere() {
    for addr in [0usize, 1, 2, 3, 4, 0x1001, usize::MAX] {
        assert_eq!(try_cast_ref(U32, F32, addr), Ok(addr));
        assert_eq!(try_cast_ref(U64, U64, addr), Ok(addr));
        assert_eq!(try_cast_ref(UNIT, UNIT, addr), Ok(addr));
    }
}

#[test]
fn weaker_target_is_accepted_everywhere() {
    for addr in [0usize, 4, 0x1003, usize::MAX] {
        assert_eq!(try_cast_ref(U32, BYTES4, addr), Ok(addr));
        assert_eq!(try_cast_ref(U64, WORDS2, addr), Ok(addr));
        assert_eq!(try_cast_ref(U64, BYTES8, addr), Ok(addr));
    }
}

#[test]
fn references_of_different_sizes_are_a_size_mismatch() {
    assert_eq!(try_cast_ref(U32, U16, 0x1000), Err(PodCastError::SizeMismatch));
    assert_eq!(try_cast_ref(U16, U32, 0x1000), Err(PodCastError::SizeMismatch));
    assert_eq!(try_cast_ref(U32, U64, 0x1008), Err(PodCastError::SizeMismatch));
    assert_eq!(try_cast_ref(U32, UNIT, 0x1000), Err(PodCastError::SizeMismatch));
    assert_eq!(try_cast_ref(UNIT, U8, 0x1000), Err(PodCastError::SizeMismatch));
}

#[test]
fn alignment_failure_hides_the_size_mismatch() {
    assert_eq!(
        try_cast_ref(U16, U32, 0x1002),
        Err(PodCastError::TargetAlignmentGreaterAndInputNotAligned)
    );
    assert_eq!(
        try_cast_ref(U8, U64, 0x1004),
        Err(PodCastError::TargetAlignmentGreaterAndInputNotAligned)
    );
    assert_eq!(try_cast_ref(U8, U64, 0x1008), Err(PodCastError::SizeMismatch));
}

#[test]
fn there_and_back_gives_the_same_reference() {
    for addr in [0usize, 8, 0x1000, 0x7ff8] {
        let there = try_cast_ref(WORDS2, U64, addr);
        assert_eq!(there, Ok(addr));
        assert_eq!(try_cast_ref(U64, WORDS2, there.unwrap()), Ok(addr));
    }
}

#[test]
fn exclusive_references_are_judged_as_shared_ones() {
    let layouts = [UNIT, U8, U16, U32, U64, BYTES4, BYTES8, WORDS2];
    for src in layouts {
        for dst in layouts {
            for addr in 0x1000usize..0x1011 {
                assert_eq!(try_cast_mut(src, dst, addr), try_cast_ref(src, dst, addr));
            }
        }
    }
}

#[test]
fn try_cast_mut_by_case() {
    assert_eq!(try_cast_mut(U32, F32, 0x1004), Ok(0x1004));
    assert_eq!(try_cast_mut(U32, U16, 0x1004), Err(PodCastError::SizeMismatch));
    assert_eq!(
        try_cast_mut(BYTES4, U32, 0x1002),
        Err(PodCastError::TargetAlignmentGreaterAndInputNotAligned)
    );
}

#[test]
fn cast_ref_keeps_the_address() {
    assert_eq!(cast_ref(U32, F32, 0x1004), 0x1004);
    assert_eq!(cast_ref(U64, BYTES8, 0x1003), 0x1003);
    assert_eq!(cast_ref(BYTES8, U64, 0x1008), 0x1008);
}

#[test]
fn cast_mut_keeps_the_address() {
    assert_eq!(cast_mut(U32, F32, 0x1004), 0x1004);
    assert_eq!(cast_mut(U64, BYTES8, 0x1003), 0x1003);
    assert_eq!(cast_mut(BYTES8, U64, 0x1008), 0x1008);
}

#[test]
fn a_value_of_a_real_type_read_as_its_bytes() {
    let word = Layout::of::<u32>();
    let bytes = Layout::of::<[u8; 4]>();
    assert_eq!(try_cast_ref(word, bytes, 0x1001), Ok(0x1001));
    assert_eq!(try_cast_ref(bytes, word, 0x1000), Ok(0x1000));
    assert_eq!(
        try_cast_ref(bytes, word, 0x1001),
        Err(PodCastError::TargetAlignmentGreaterAndInputNotAligned)
    );
}
