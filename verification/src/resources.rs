//! Raw resource catalog: stack limits, per-action gather limits and
//! gather cooldowns.

use vstd::prelude::*;
use crate::errors::FarmingError;

verus! {

/// A gatherable raw resource kind.
#[derive(Clone, Copy, Debug, PartialEq, Eq, Structural)]
pub enum ResourceType {
    Wood,
    Stone,
    Fiber,
    Seeds,
}

impl ResourceType {
    pub open spec fn spec_from_u8(value: u8) -> Option<ResourceType> {
        match value {
            0u8 => Some(ResourceType::Wood),
            1u8 => Some(ResourceType::Stone),
            2u8 => Some(ResourceType::Fiber),
            3u8 => Some(ResourceType::Seeds),
            _ => None,
        }
    }

    /// Decode a resource identifier; identifiers outside the catalog fail
    /// with `InvalidResourceType`.
    pub fn from_u8(value: u8) -> (r: Result<ResourceType, FarmingError>)
        ensures
            r matches Ok(t) ==> ResourceType::spec_from_u8(value) == Some(t),
            r is Err <==> ResourceType::spec_from_u8(value) is None,
            r matches Err(e) ==> e == FarmingError::InvalidResourceType,
    {
        match value {
            0 => Ok(ResourceType::Wood),
            1 => Ok(ResourceType::Stone),
            2 => Ok(ResourceType::Fiber),
            3 => Ok(ResourceType::Seeds),
            _ => Err(FarmingError::InvalidResourceType),
        }
    }

    pub open spec fn spec_max_stack_size(self) -> u16 {
        match self {
            ResourceType::Wood => 999u16,
            ResourceType::Stone => 999u16,
            ResourceType::Fiber => 500u16,
            ResourceType::Seeds => 500u16,
        }
    }

    /// The stack cap of this resource: a gather that would exceed it is a
    /// hard failure.
    pub fn max_stack_size(&self) -> (r: u16)
        ensures
            r == self.spec_max_stack_size(),
    {
        match self {
            ResourceType::Wood => 999,
            ResourceType::Stone => 999,
            ResourceType::Fiber => 500,
            ResourceType::Seeds => 500,
        }
    }

    pub open spec fn spec_max_gather_per_action(self) -> u16 {
        match self {
            ResourceType::Wood => 5u16,
            ResourceType::Stone => 3u16,
            ResourceType::Fiber => 8u16,
            ResourceType::Seeds => 0u16,
        }
    }

    /// The most of this resource one gather action may take. Seeds cannot
    /// be gathered manually at all (they come from harvests only).
    pub fn max_gather_per_action(&self) -> (r: u16)
        ensures
            r == self.spec_max_gather_per_action(),
    {
        match self {
            ResourceType::Wood => 5,
            ResourceType::Stone => 3,
            ResourceType::Fiber => 8,
            ResourceType::Seeds => 0,
        }
    }

    pub open spec fn spec_gather_cooldown_seconds(self) -> i64 {
        match self {
            ResourceType::Wood => 3600i64,
            ResourceType::Stone => 3600i64,
            ResourceType::Fiber => 1800i64,
            ResourceType::Seeds => 0i64,
        }
    }

    /// Seconds that must elapse between two gathers of this resource.
    pub fn gather_cooldown_seconds(&self) -> (r: i64)
        ensures
            r == self.spec_gather_cooldown_seconds(),
    {
        match self {
            ResourceType::Wood => 3600,
            ResourceType::Stone => 3600,
            ResourceType::Fiber => 1800,
            ResourceType::Seeds => 0,
        }
    }
}

} // verus!
