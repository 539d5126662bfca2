use vstd::prelude::*;

verus! {

/// `CF_CALLBACK_TYPE_NONE`, which ends a callback table.
pub const CALLBACK_TYPE_NONE: i32 = -1;

/// The number of callbacks a sync filter answers.
pub const CALLBACK_COUNT: usize = 13;

/// The `CF_CALLBACK_TYPE` of each entry of the callback table a connection
/// registers: fetch data (0), validate data, cancel fetch data, fetch
/// placeholders, cancel fetch placeholders, file open completion, file close
/// completion, dehydrate, dehydrate completion, delete, delete completion,
/// rename and rename completion (12), in the order of their values, then the
/// entry that ends the table.
pub open spec fn callback_table_types() -> Seq<i32> {
    Seq::new(CALLBACK_COUNT as nat, |i: int| i as i32).push(CALLBACK_TYPE_NONE)
}

/// The callback types of the table a connection registers, entry by entry;
/// each but the last is paired with the function that answers it.
pub fn callback_types() -> (r: Vec<i32>)
    ensures
        r@ == callback_table_types(),
{
    let mut types: Vec<i32> = Vec::new();
    let mut i: i32 = 0;
    while i < 13
        invariant
            0 <= i <= 13,
            types@ =~= Seq::new(i as nat, |k: int| k as i32),
        decreases 13 - i,
    {
        types.push(i);
        i = i + 1;
    }
    types.push(CALLBACK_TYPE_NONE);
    types
}

} // verus!
