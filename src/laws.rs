//! What holds of the configuration slots across writes and reads.
use vstd::prelude::*;
use soroban_sdk::{Address, BytesN};
use crate::host::InstanceStore;
use crate::config::{
    template_read, template_slot_typed, template_written, token_read, token_slot_typed,
    token_written, ConfigError,
};

verus! {

/// Right after `v` is written as the token, the token slot can be read, and
/// reading it returns `v`.
pub proof fn lemma_token_read_after_write(before: InstanceStore, after: InstanceStore, v: Address)
    requires
        token_written(before, after, v),
    ensures
        token_slot_typed(after),
        token_read(after) == Ok::<Address, ConfigError>(v),
{
}

/// Right after `h` is written as the template, the template slot can be
/// read, and reading it returns `h`.
pub proof fn lemma_template_read_after_write(before: InstanceStore, after: InstanceStore, h: BytesN<32>)
    requires
        template_written(before, after, h),
    ensures
        template_slot_typed(after),
        template_read(after) == Ok::<BytesN<32>, ConfigError>(h),
{
}

/// Of two writes of the token, the later one is what a read returns; the
/// earlier value, where it differs, is not returned.
pub proof fn lemma_token_last_write_wins(
    e0: InstanceStore,
    e1: InstanceStore,
    e2: InstanceStore,
    v1: Address,
    v2: Address,
)
    requires
        token_written(e0, e1, v1),
        token_written(e1, e2, v2),
    ensures
        token_read(e2) == Ok::<Address, ConfigError>(v2),
        v1 != v2 ==> token_read(e2) != Ok::<Address, ConfigError>(v1),
{
}

/// Of two writes of the template, the later one is what a read returns; the
/// earlier value, where it differs, is not returned.
pub proof fn lemma_template_last_write_wins(
    e0: InstanceStore,
    e1: InstanceStore,
    e2: InstanceStore,
    h1: BytesN<32>,
    h2: BytesN<32>,
)
    requires
        template_written(e0, e1, h1),
        template_written(e1, e2, h2),
    ensures
        template_read(e2) == Ok::<BytesN<32>, ConfigError>(h2),
        h1 != h2 ==> template_read(e2) != Ok::<BytesN<32>, ConfigError>(h1),
{
}

/// Writing the token leaves the template slot as it was: what a read of it
/// returns, and whether it can be read.
pub proof fn lemma_token_write_keeps_template(before: InstanceStore, after: InstanceStore, v: Address)
    requires
        token_written(before, after, v),
    ensures
        template_read(after) == template_read(before),
        template_slot_typed(after) == template_slot_typed(before),
{
}

/// Writing the template leaves the token slot as it was: what a read of it
/// returns, and whether it can be read.
pub proof fn lemma_template_write_keeps_token(before: InstanceStore, after: InstanceStore, h: BytesN<32>)
    requires
        template_written(before, after, h),
    ensures
        token_read(after) == token_read(before),
        token_slot_typed(after) == token_slot_typed(before),
{
}

} // verus!
