//! How many bytes parts under way may take up together.

use vstd::prelude::*;
use vstd::string::*;

use crate::error;
use crate::error::{InnerErrorCode, MeowError};
use crate::text;
use crate::text::push_decimal;

verus! {

/// The budget of a process with 32-bit addresses: 64 MiB.
pub const MEMORY_LIMIT_32_BIT: u64 = 67108864;

/// The budget of any other process: 512 MiB.
pub const MEMORY_LIMIT_64_BIT: u64 = 536870912;

/// The budget for a pointer width. 32-bit processes get an eighth.
pub fn memory_limit_for_pointer_width(pointer_width: u32) -> (limit: u64)
    ensures
        limit == if pointer_width <= 32 {
            MEMORY_LIMIT_32_BIT
        } else {
            MEMORY_LIMIT_64_BIT
        },
{
    if pointer_width <= 32 {
        MEMORY_LIMIT_32_BIT
    } else {
        MEMORY_LIMIT_64_BIT
    }
}

/// The budget on this machine.
pub fn current_memory_limit_bytes() -> (limit: u64)
    ensures
        limit == if usize::BITS <= 32 {
            MEMORY_LIMIT_32_BIT
        } else {
            MEMORY_LIMIT_64_BIT
        },
{
    memory_limit_for_pointer_width(usize::BITS)
}

/// `tokio::sync::Semaphore::MAX_PERMITS`: the most permits that a semaphore can
/// hold, documented as `usize::MAX >> 3`.
#[verifier::external_body]
fn semaphore_max_permits() -> (max: usize)
    ensures
        max == usize::MAX / 8,
{
    tokio::sync::Semaphore::MAX_PERMITS
}

/// The byte budget that all parallel transfers of a client share. The permits
/// themselves are held by a semaphore; this decides how many there are and
/// which requests can ever be met.
#[derive(Debug, Clone, Copy, PartialEq, Eq, Structural)]
pub struct ParallelMemoryBudget {
    pub limit_bytes: u64,
}

/// The text of the refusal of a part that can never fit.
pub open spec fn oversized_text(bytes: u64, limit: u64) -> Seq<char> {
    "parallel part memory exceeds client limit: requested="@ + text::decimal(bytes as nat)
        + " limit="@ + text::decimal(limit as nat)
}

/// How many bytes a part takes up while it is under way: its own, which the last
/// part has fewer of, and for an upload the block that its bytes are read into
/// again to be verified.
pub open spec fn part_charge(offset: nat, chunk: nat, total: nat, verify_block: nat) -> nat {
    let left = if offset <= total {
        (total - offset) as nat
    } else {
        0
    };
    (if chunk <= left {
        chunk
    } else {
        left
    }) + verify_block
}

/// See [`part_charge`]; a sum that does not fit is as large as can be, which no
/// budget grants.
pub fn part_memory_bytes(offset: u64, chunk: u64, total: u64, verify_block: u64) -> (bytes: u64)
    ensures
        bytes == if part_charge(
            offset as nat,
            chunk as nat,
            total as nat,
            verify_block as nat,
        ) <= u64::MAX {
            part_charge(offset as nat, chunk as nat, total as nat, verify_block as nat)
        } else {
            u64::MAX as nat
        },
{
    let left: u64 = if offset <= total {
        total - offset
    } else {
        0
    };
    let own: u64 = if chunk <= left {
        chunk
    } else {
        left
    };
    own.saturating_add(verify_block)
}

impl ParallelMemoryBudget {
    /// The budget of this machine.
    pub fn for_current_target() -> (budget: Self)
        ensures
            budget.limit_bytes == if usize::BITS <= 32 {
                MEMORY_LIMIT_32_BIT
            } else {
                MEMORY_LIMIT_64_BIT
            },
    {
        ParallelMemoryBudget::with_limit(current_memory_limit_bytes())
    }

    /// A budget of at most `limit_bytes`: a semaphore cannot hold more permits
    /// than its own maximum, and no request can ask for more than 32 bits tell.
    pub fn with_limit(limit_bytes: u64) -> (budget: Self)
        ensures
            budget.limit_bytes <= limit_bytes,
            budget.limit_bytes <= usize::MAX / 8,
            budget.limit_bytes <= u32::MAX,
            budget.limit_bytes == limit_bytes || budget.limit_bytes == usize::MAX / 8
                || budget.limit_bytes == u32::MAX,
    {
        let max_permits: u64 = semaphore_max_permits() as u64;
        let mut limit: u64 = limit_bytes;
        if limit > max_permits {
            limit = max_permits;
        }
        if limit > u32::MAX as u64 {
            limit = u32::MAX as u64;
        }
        ParallelMemoryBudget { limit_bytes: limit }
    }

    pub fn limit_bytes(&self) -> (limit: u64)
        ensures
            limit == self.limit_bytes,
    {
        self.limit_bytes
    }

    /// How many permits a part of `bytes` bytes needs. A part that is larger
    /// than the whole budget is refused instead of waiting forever.
    pub fn permits_for(&self, bytes: u64) -> (permits: Result<u32, MeowError>)
        requires
            self.limit_bytes <= u32::MAX,
        ensures
            permits is Ok <==> bytes <= self.limit_bytes,
            permits is Ok ==> permits->Ok_0 == bytes,
            bytes > self.limit_bytes ==> error::fails_with(
                permits,
                InnerErrorCode::IoError,
                oversized_text(bytes, self.limit_bytes),
            ),
    {
        if bytes > self.limit_bytes {
            let mut text = "parallel part memory exceeds client limit: requested=".to_owned();
            push_decimal(&mut text, bytes as u128);
            text.append(" limit=");
            push_decimal(&mut text, self.limit_bytes as u128);
            return Err(MeowError::from_code(InnerErrorCode::IoError, text));
        }
        Ok(bytes as u32)
    }
}

} // verus!
