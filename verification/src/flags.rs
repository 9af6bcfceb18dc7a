//! Truth values packed into a byte.

use vstd::prelude::*;

verus! {

/// The flags with one of them set or cleared.
pub open spec fn with_flag(flags: u8, flag: u8, value: bool) -> u8 {
    if value {
        flags | flag
    } else {
        flags & !flag
    }
}

/// Sets or clears one of the flags.
pub fn set_flag(flags: u8, flag: u8, value: bool) -> (after: u8)
    ensures
        after == with_flag(flags, flag, value),
{
    if value {
        flags | flag
    } else {
        flags & !flag
    }
}

/// Whether one of the flags is set.
pub fn get_flag(flags: u8, flag: u8) -> (set: bool)
    ensures
        set == has_flag(flags, flag),
{
    flags & flag != 0
}

/// Whether one of the flags is set.
pub open spec fn has_flag(flags: u8, flag: u8) -> bool {
    flags & flag != 0
}

/// A flag that was set reads as set, and one that was cleared as cleared.
pub proof fn law_flag_reads_back(flags: u8, flag: u8, value: bool)
    requires
        flag != 0,
    ensures
        has_flag(with_flag(flags, flag, value), flag) == value,
{
    assert((flags | flag) & flag != 0) by (bit_vector)
        requires
            flag != 0,
    ;
    assert((flags & !flag) & flag == 0) by (bit_vector);
}

/// Setting or clearing a flag leaves the flags that share no bit with it alone.
pub proof fn law_flag_leaves_others(flags: u8, flag: u8, other: u8, value: bool)
    requires
        flag & other == 0,
    ensures
        has_flag(with_flag(flags, flag, value), other) == has_flag(flags, other),
{
    assert((flags | flag) & other == flags & other) by (bit_vector)
        requires
            flag & other == 0,
    ;
    assert((flags & !flag) & other == flags & other) by (bit_vector)
        requires
            flag & other == 0,
    ;
}

/// Setting a flag twice is setting it once, and a flag that is set as it was changes nothing.
pub proof fn law_flag_settles(flags: u8, flag: u8, value: bool)
    ensures
        with_flag(with_flag(flags, flag, value), flag, value) == with_flag(flags, flag, value),
        !value && !has_flag(flags, flag) ==> with_flag(flags, flag, value) == flags,
{
    assert((flags | flag) | flag == flags | flag) by (bit_vector);
    assert((flags & !flag) & !flag == flags & !flag) by (bit_vector);
    assert(flags & flag == 0 ==> flags & !flag == flags) by (bit_vector);
}

} // verus!
