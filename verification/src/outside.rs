//! The types of other crates that pass through the behaviour.
//!
//! The behaviour moves such values, copies a `PeerId` and clones a record's key; it never looks
//! inside one. All that is claimed of them here is that the clone of a key is the same key.

use vstd::prelude::*;

verus! {

/// `libp2p::PeerId`: the identifier of a node of the network.
#[verifier::external_type_specification]
#[verifier::external_body]
pub struct ExPeerId(libp2p::PeerId);

/// `libp2p::Multiaddr`: an address at which a node can be reached.
#[verifier::external_type_specification]
#[verifier::external_body]
pub struct ExMultiaddr(libp2p::Multiaddr);

/// `libp2p::kad::record::Key`: the key of a record of the distributed hash table.
#[verifier::external_type_specification]
#[verifier::external_body]
pub struct ExRecordKey(libp2p::kad::record::Key);

/// `libp2p::kad::record::Key::clone`, which the crate derives: the clone holds the same bytes as
/// the key, so it is the same key.
pub assume_specification[ <libp2p::kad::record::Key as Clone>::clone ](
    key: &libp2p::kad::record::Key,
) -> (res: libp2p::kad::record::Key)
    ensures
        res == *key,
;

/// `bytes::Bytes`: the content of a notification.
#[verifier::external_type_specification]
#[verifier::external_body]
pub struct ExBytes(bytes::Bytes);

/// `prost::EncodeError`: why a request could not be encoded.
#[verifier::external_type_specification]
#[verifier::external_body]
pub struct ExEncodeError(prost::EncodeError);

/// `futures::channel::oneshot::Sender`: where the response to a request is to go.
#[verifier::external_type_specification]
#[verifier::external_body]
#[verifier::reject_recursive_types(T)]
pub struct ExSender<T>(futures::channel::oneshot::Sender<T>);

} // verus!
