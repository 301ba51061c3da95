//! Identifiers of partitions, services and invocations.
use crate::octets::bytes_contents;
use bytes::Bytes;
use vstd::prelude::*;

verus! {

/// Key by which services are assigned to partitions.
pub type PartitionKey = u64;

/// Position of an entry in the journal of an invocation.
pub type EntryIndex = u32;

/// Sequence number of an inbox or outbox message.
pub type MessageIndex = u64;

/// Point in time, in milliseconds since the Unix epoch.
pub type MillisSinceEpoch = u64;

/// Unique part of an invocation's identity; it never changes while the
/// invocation lives.
pub type InvocationUuid = u128;

/// Stable handle of an invocation.
#[derive(Clone, Copy, Debug, PartialEq, Eq, Hash)]
pub struct InvocationId {
    pub partition_key: PartitionKey,
    pub invocation_uuid: InvocationUuid,
}

/// A virtual object: a service name and the key of one of its instances,
/// with the partition key under which the object lives.
#[derive(Debug, PartialEq, Eq)]
pub struct ServiceId {
    pub partition_key: PartitionKey,
    pub service_name: String,
    pub key: Bytes,
}

pub struct ServiceIdView {
    pub partition_key: PartitionKey,
    pub service_name: Seq<char>,
    pub key: Seq<u8>,
}

impl View for ServiceId {
    type V = ServiceIdView;

    open spec fn view(&self) -> ServiceIdView {
        ServiceIdView {
            partition_key: self.partition_key,
            service_name: self.service_name@,
            key: bytes_contents(self.key),
        }
    }
}

impl Clone for ServiceId {
    fn clone(&self) -> (r: Self)
        ensures
            r@ == self@,
    {
        ServiceId {
            partition_key: self.partition_key,
            service_name: self.service_name.clone(),
            key: self.key.clone(),
        }
    }
}

impl ServiceId {
    pub fn with_partition_key(partition_key: PartitionKey, service_name: String, key: Bytes) -> (r:
        Self)
        ensures
            r@ == (ServiceIdView {
                partition_key,
                service_name: service_name@,
                key: bytes_contents(key),
            }),
    {
        ServiceId { partition_key, service_name, key }
    }
}

/// An invocation together with the virtual object it runs on.
#[derive(Debug, PartialEq, Eq)]
pub struct FullInvocationId {
    pub service_id: ServiceId,
    pub invocation_uuid: InvocationUuid,
}

pub struct FullInvocationIdView {
    pub service_id: ServiceIdView,
    pub invocation_uuid: InvocationUuid,
}

impl FullInvocationIdView {
    /// The handle that a full identifier contains.
    pub open spec fn invocation_id(self) -> InvocationId {
        InvocationId {
            partition_key: self.service_id.partition_key,
            invocation_uuid: self.invocation_uuid,
        }
    }

    pub open spec fn combine(service_id: ServiceIdView, invocation_id: InvocationId) -> Self {
        FullInvocationIdView { service_id, invocation_uuid: invocation_id.invocation_uuid }
    }
}

impl View for FullInvocationId {
    type V = FullInvocationIdView;

    open spec fn view(&self) -> FullInvocationIdView {
        FullInvocationIdView {
            service_id: self.service_id@,
            invocation_uuid: self.invocation_uuid,
        }
    }
}

impl Clone for FullInvocationId {
    fn clone(&self) -> (r: Self)
        ensures
            r@ == self@,
    {
        FullInvocationId {
            service_id: self.service_id.clone(),
            invocation_uuid: self.invocation_uuid,
        }
    }
}

impl FullInvocationId {
    pub fn with_partition_key(
        partition_key: PartitionKey,
        service_name: String,
        key: Bytes,
        invocation_uuid: InvocationUuid,
    ) -> (r: Self)
        ensures
            r@ == (FullInvocationIdView {
                service_id: ServiceIdView {
                    partition_key,
                    service_name: service_name@,
                    key: bytes_contents(key),
                },
                invocation_uuid,
            }),
    {
        FullInvocationId {
            service_id: ServiceId::with_partition_key(partition_key, service_name, key),
            invocation_uuid,
        }
    }

    /// Joins a virtual object and the handle of an invocation that runs on it.
    pub fn combine(service_id: ServiceId, invocation_id: InvocationId) -> (r: Self)
        ensures
            r@ == FullInvocationIdView::combine(service_id@, invocation_id),
    {
        FullInvocationId { service_id, invocation_uuid: invocation_id.invocation_uuid }
    }

    pub fn invocation_id(&self) -> (r: InvocationId)
        ensures
            r == self@.invocation_id(),
    {
        InvocationId {
            partition_key: self.service_id.partition_key,
            invocation_uuid: self.invocation_uuid,
        }
    }

    pub fn partition_key(&self) -> (r: PartitionKey)
        ensures
            r == self@.service_id.partition_key,
    {
        self.service_id.partition_key
    }
}

/// An invocation named either by its handle alone or by its full identifier.
#[derive(Debug, PartialEq, Eq)]
pub enum MaybeFullInvocationId {
    Partial(InvocationId),
    Full(FullInvocationId),
}

pub enum MaybeFullInvocationIdView {
    Partial(InvocationId),
    Full(FullInvocationIdView),
}

impl MaybeFullInvocationIdView {
    pub open spec fn invocation_id(self) -> InvocationId {
        match self {
            MaybeFullInvocationIdView::Partial(id) => id,
            MaybeFullInvocationIdView::Full(fid) => fid.invocation_id(),
        }
    }
}

impl View for MaybeFullInvocationId {
    type V = MaybeFullInvocationIdView;

    open spec fn view(&self) -> MaybeFullInvocationIdView {
        match self {
            MaybeFullInvocationId::Partial(id) => MaybeFullInvocationIdView::Partial(*id),
            MaybeFullInvocationId::Full(fid) => MaybeFullInvocationIdView::Full(fid@),
        }
    }
}

impl Clone for MaybeFullInvocationId {
    fn clone(&self) -> (r: Self)
        ensures
            r@ == self@,
    {
        match self {
            MaybeFullInvocationId::Partial(id) => MaybeFullInvocationId::Partial(*id),
            MaybeFullInvocationId::Full(fid) => MaybeFullInvocationId::Full(fid.clone()),
        }
    }
}

impl MaybeFullInvocationId {
    pub fn invocation_id(&self) -> (r: InvocationId)
        ensures
            r == self@.invocation_id(),
    {
        match self {
            MaybeFullInvocationId::Partial(id) => *id,
            MaybeFullInvocationId::Full(fid) => fid.invocation_id(),
        }
    }
}

} // verus!
