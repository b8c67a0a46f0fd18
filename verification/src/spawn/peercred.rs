//! The peer-credential check, by which the second stage authenticates its
//! channel: the kernel's word on who is at the other end, against the process's
//! own effective ids.

use vstd::prelude::*;

use crate::error::{joined, SysError};
use crate::text::{begins_with, decimal, decimal_text, ends_with, lemma_ends_of_a_sum};

verus! {

/// The channel peer's identity could not be established, or is not ours.
#[derive(Debug)]
pub enum PeerCredError {
    /// Reading the peer's credentials failed.
    Lookup(SysError),
    /// The peer's effective uid or gid differs from ours.
    CredMismatch { peer_uid: u32, our_uid: u32, peer_gid: u32, our_gid: u32 },
}

impl PeerCredError {
    /// What `message` returns.
    pub open spec fn text(&self) -> Seq<char> {
        match self {
            PeerCredError::Lookup(err) => "could not read the channel peer's credentials: "@
                + err.error.message@,
            PeerCredError::CredMismatch { peer_uid, our_uid, peer_gid, our_gid } =>
                "channel peer credentials (uid "@ + decimal(*peer_uid as nat) + ", gid "@ + decimal(
                *peer_gid as nat,
            ) + ") do not match ours (uid "@ + decimal(*our_uid as nat) + ", gid "@ + decimal(
                *our_gid as nat,
            ) + "); refusing to serve a channel from a different principal"@,
        }
    }

    /// The error as a sentence.
    pub fn message(&self) -> (text: String)
        ensures
            text@ == self.text(),
    {
        match self {
            PeerCredError::Lookup(err) => joined(
                "could not read the channel peer's credentials: ",
                err.error.message.as_str(),
            ),
            PeerCredError::CredMismatch { peer_uid, our_uid, peer_gid, our_gid } => {
                let mut text = joined(
                    "channel peer credentials (uid ",
                    decimal_text(*peer_uid as u64).as_str(),
                );
                text.append(", gid ");
                text.append(decimal_text(*peer_gid as u64).as_str());
                text.append(") do not match ours (uid ");
                text.append(decimal_text(*our_uid as u64).as_str());
                text.append(", gid ");
                text.append(decimal_text(*our_gid as u64).as_str());
                text.append("); refusing to serve a channel from a different principal");
                text
            },
        }
    }
}

/// Compare the peer's (uid, gid) with ours: both have to be equal.
pub fn creds_match(peer: (u32, u32), ours: (u32, u32)) -> (verdict: Result<(), PeerCredError>)
    ensures
        peer == ours ==> verdict == Ok::<(), PeerCredError>(()),
        peer != ours ==> verdict == Err::<(), PeerCredError>(
            PeerCredError::CredMismatch {
                peer_uid: peer.0,
                our_uid: ours.0,
                peer_gid: peer.1,
                our_gid: ours.1,
            },
        ),
{
    let (peer_uid, peer_gid) = peer;
    let (our_uid, our_gid) = ours;
    if peer_uid != our_uid || peer_gid != our_gid {
        return Err(PeerCredError::CredMismatch { peer_uid, our_uid, peer_gid, our_gid });
    }
    Ok(())
}

/// The verdict on the channel, given what the kernel reports of the peer's
/// effective ids and what ours are.
pub fn verify_channel_peer_creds(peer: Result<(u32, u32), SysError>, ours: (u32, u32)) -> (verdict:
    Result<(), PeerCredError>)
    ensures
        verdict is Ok <==> peer == Ok::<(u32, u32), SysError>(ours),
        peer matches Err(err) ==> verdict == Err::<(), PeerCredError>(PeerCredError::Lookup(err)),
        peer matches Ok(creds) ==> creds != ours ==> verdict == Err::<(), PeerCredError>(
            PeerCredError::CredMismatch {
                peer_uid: creds.0,
                our_uid: ours.0,
                peer_gid: creds.1,
                our_gid: ours.1,
            },
        ),
{
    match peer {
        Ok(creds) => creds_match(creds, ours),
        Err(err) => Err(PeerCredError::Lookup(err)),
    }
}

/// A channel is served if and only if its peer has both our user and our group;
/// a refusal names all four numbers, or why they could not be read.
pub proof fn law_only_our_own_peer_is_served(
    peer: Result<(u32, u32), SysError>,
    our_uid: u32,
    our_gid: u32,
    verdict: Result<(), PeerCredError>,
)
    requires
        call_ensures(verify_channel_peer_creds, (peer, (our_uid, our_gid)), verdict),
    ensures
        verdict is Ok <==> (peer matches Ok((uid, gid)) && uid == our_uid && gid == our_gid),
        peer matches Err(err) ==> (verdict matches Err(PeerCredError::Lookup(e)) && e == err),
        peer matches Ok((uid, gid)) ==> verdict is Err ==> (verdict matches Err(
            PeerCredError::CredMismatch { peer_uid, our_uid: u, peer_gid, our_gid: g },
        ) && peer_uid == uid && peer_gid == gid && u == our_uid && g == our_gid),
{
}

/// Two processes recognise each other or do not: the check does not depend on
/// which of the two makes it.
pub proof fn law_credential_check_is_symmetric(
    a: (u32, u32),
    b: (u32, u32),
    ab: Result<(), PeerCredError>,
    ba: Result<(), PeerCredError>,
)
    requires
        call_ensures(creds_match, (a, b), ab),
        call_ensures(creds_match, (b, a), ba),
    ensures
        ab is Ok <==> ba is Ok,
        ab is Ok <==> a.0 == b.0 && a.1 == b.1,
{
}

/// A refusal says which numbers differ, or why they could not be read.
pub proof fn law_refusal_names_the_credentials(err: &PeerCredError, text: String)
    requires
        call_ensures(PeerCredError::message, (err,), text),
    ensures
        err matches PeerCredError::Lookup(e) ==> ends_with(text@, e.error.message@),
        err matches PeerCredError::CredMismatch { peer_uid, our_uid, peer_gid, our_gid }
            ==> begins_with(
            text@,
            "channel peer credentials (uid "@ + decimal(*peer_uid as nat) + ", gid "@ + decimal(
                *peer_gid as nat,
            ) + ") do not match ours (uid "@ + decimal(*our_uid as nat) + ", gid "@ + decimal(
                *our_gid as nat,
            ),
        ),
{
    match err {
        PeerCredError::Lookup(e) => {
            lemma_ends_of_a_sum("could not read the channel peer's credentials: "@, e.error.message@);
        },
        PeerCredError::CredMismatch { peer_uid, our_uid, peer_gid, our_gid } => {
            let head = "channel peer credentials (uid "@ + decimal(*peer_uid as nat) + ", gid "@
                + decimal(*peer_gid as nat) + ") do not match ours (uid "@ + decimal(
                *our_uid as nat,
            ) + ", gid "@ + decimal(*our_gid as nat);
            lemma_ends_of_a_sum(
                head,
                "); refusing to serve a channel from a different principal"@,
            );
        },
    }
}

/// Every peer is judged.
pub proof fn law_every_peer_is_judged(
    peer: Result<(u32, u32), SysError>,
    theirs: (u32, u32),
    ours: (u32, u32),
)
    ensures
        call_requires(verify_channel_peer_creds, (peer, ours)),
        call_requires(creds_match, (theirs, ours)),
{
}

} // verus!
