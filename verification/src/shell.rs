//! Shell expansion: reading what the callee answers to a request to expand a string.
use vstd::prelude::*;
use crate::ctypes;
use crate::handle::{sub_handles, ObjectTable, TaggedResult};
use crate::util;
use crate::Error;

verus! {

/// Reads the callee's answer to a request to expand a string as if it were within double
/// quotes: the expanded string where the discriminant announces one, else the typed error
/// that the payload stands for. The payload's handle is released either way.
pub fn expand(table: &mut ObjectTable, resp: TaggedResult) -> (res: Result<String, Error>)
    requires
        resp.r1 == ctypes::HUSK_SHELL_EXPAND_STRING || ctypes::HUSK_ERROR_IO <= resp.r1
            <= ctypes::HUSK_ERROR_UNKNOWN,
        old(table).spec_fits(resp.r0.spec_addr(), resp.r1),
    ensures
        resp.r1 == ctypes::HUSK_SHELL_EXPAND_STRING ==> res == Ok::<String, Error>(
            old(table)@[resp.r0.spec_addr()]->Text_0,
        ),
        resp.r1 != ctypes::HUSK_SHELL_EXPAND_STRING ==> res is Err && Some(res->Err_0)
            == util::spec_typed_error(old(table)@[resp.r0.spec_addr()]),
        final(table)@ == old(table)@.remove(resp.r0.spec_addr()),
        final(table).issued() == old(table).issued() + sub_handles(
            old(table)@[resp.r0.spec_addr()],
        ),
        final(table).asked() == old(table).asked(),
{
    if resp.r1 == ctypes::HUSK_SHELL_EXPAND_STRING {
        let resp_str = table.stringer_to_string(&resp.r0);
        table.release(resp.r0);
        Ok(resp_str)
    } else {
        Err(util::error_obj_to_rust(table, resp.r0, resp.r1))
    }
}

/// Reads the callee's answer to a request to expand a string as if it were a command's
/// arguments: the fields in their order where the discriminant announces an array of
/// strings, else the typed error that the payload stands for. The array is asked for one
/// index after the other until it reports its end. The payload's handle is released
/// either way.
pub fn fields(table: &mut ObjectTable, resp: TaggedResult) -> (res: Result<Vec<String>, Error>)
    requires
        resp.r1 == ctypes::HUSK_SHELL_FIELDS_STRINGS || ctypes::HUSK_ERROR_IO <= resp.r1
            <= ctypes::HUSK_ERROR_UNKNOWN,
        old(table).spec_fits(resp.r0.spec_addr(), resp.r1),
    ensures
        resp.r1 == ctypes::HUSK_SHELL_FIELDS_STRINGS ==> res is Ok && res->Ok_0@ == old(
            table,
        )@[resp.r0.spec_addr()]->Strings_0@,
        resp.r1 != ctypes::HUSK_SHELL_FIELDS_STRINGS ==> res is Err && Some(res->Err_0)
            == util::spec_typed_error(old(table)@[resp.r0.spec_addr()]),
        final(table)@ == old(table)@.remove(resp.r0.spec_addr()),
        final(table).issued() == old(table).issued() + sub_handles(
            old(table)@[resp.r0.spec_addr()],
        ),
        final(table).asked() == old(table).asked() + (if resp.r1
            == ctypes::HUSK_SHELL_FIELDS_STRINGS {
            util::questions(
                resp.r0.spec_addr(),
                (old(table)@[resp.r0.spec_addr()]->Strings_0@.len() + 1) as nat,
            )
        } else {
            Seq::<(usize, usize)>::empty()
        }),
{
    if resp.r1 == ctypes::HUSK_SHELL_FIELDS_STRINGS {
        Ok(util::go_to_rust_string_vec(table, resp.r0))
    } else {
        Err(util::error_obj_to_rust(table, resp.r0, resp.r1))
    }
}

} // verus!
