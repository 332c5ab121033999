use vstd::prelude::*;

use crate::errors::AuthError;
use crate::random::fresh_token;
use crate::session::Session;

verus! {

/// What a caller should do to start (or resume) verification for a session.
#[derive(Debug)]
pub enum StartOutcome {
    /// The session already has a channel; hand out its invite again rather
    /// than creating a second channel.
    Existing { channel: u32 },
    /// No channel yet: create a protected channel under this name and
    /// record the resulting channel id on the session.
    Create { name: String },
}

/// What one membership poll reports to the login page.
#[derive(Clone, Copy, Debug, PartialEq, Eq, Structural)]
pub enum PollReport {
    /// Only the system's own identity is in the channel so far.
    Waiting,
    /// The channel reached exactly two members; `identity` is the bound
    /// external identity, and `send_notice` asks the caller to post the
    /// one-time disposal notice (first successful poll only).
    Joined { identity: u32, send_notice: bool },
}

/// The non-self member of a two-member channel, as the membership list
/// reports it.
pub open spec fn non_self_member(members: Seq<u32>, self_id: u32) -> u32
    recommends
        members.len() == 2,
{
    if members[0] == self_id {
        members[1]
    } else {
        members[0]
    }
}

/// What a membership poll reports, given the session state and the
/// observed member list.
pub open spec fn poll_result(s: Session, members: Seq<u32>, self_id: u32) -> Result<
    PollReport,
    AuthError,
> {
    if s.channel is None {
        Err(AuthError::NotReady)
    } else if members.len() == 1 {
        Ok(PollReport::Waiting)
    } else if members.len() == 2 {
        Ok(
            PollReport::Joined {
                identity: if s.identity is Some {
                    s.identity->0
                } else {
                    non_self_member(members, self_id)
                },
                send_notice: !s.notified,
            },
        )
    } else {
        Err(AuthError::InvariantViolation)
    }
}

/// The session state after a membership poll: binding happens exactly on
/// the first poll that observes two members, and never rebinds.
pub open spec fn poll_next(s: Session, members: Seq<u32>, self_id: u32) -> Session {
    if s.channel is Some && members.len() == 2 {
        Session {
            identity: if s.identity is Some {
                s.identity
            } else {
                Some(non_self_member(members, self_id))
            },
            notified: true,
            ..s
        }
    } else {
        s
    }
}

/// Starts or resumes verification: a session that already has a channel
/// gets it back unchanged; otherwise a fresh, human-distinguishable
/// channel name is minted from a random token (never from the session
/// handle, which must not leak).
pub fn start_verification(session: &Session) -> (r: StartOutcome)
    ensures
        (r is Existing) <==> session.channel is Some,
        (r matches StartOutcome::Existing { channel } ==> session.channel == Some(channel)),
        (r matches StartOutcome::Create { name } ==> name@.len() == 20 && name@.subrange(0, 15)
            == "LoginBot group "@),
{
    match session.channel {
        Some(c) => StartOutcome::Existing { channel: c },
        None => {
            let token = fresh_token();
            let mut name = String::from_str("LoginBot group ");
            let short = token.as_str().substring_ascii(0, 5);
            name.append(short);
            proof {
                reveal_strlit("LoginBot group ");
                assert(name@.subrange(0, 15) =~= "LoginBot group "@);
            }
            StartOutcome::Create { name }
        },
    }
}

/// Records the channel the caller created for this session.
pub fn record_channel(session: &mut Session, channel: u32)
    requires
        old(session).channel is None,
    ensures
        final(session).channel == Some(channel),
        final(session).identity == old(session).identity,
        final(session).notified == old(session).notified,
        final(session).expires_at == old(session).expires_at,
        old(session).wf() ==> final(session).wf(),
{
    session.channel = Some(channel);
}

/// The channel whose invite artifact should be served, or `NotReady`
/// while verification has not been started for this session.
pub fn invite_channel(session: &Session) -> (r: Result<u32, AuthError>)
    ensures
        (r matches Ok(channel) ==> session.channel == Some(channel)),
        (r is Err) <==> session.channel is None,
        (r matches Err(e) ==> e == AuthError::NotReady),
{
    match session.channel {
        Some(channel) => Ok(channel),
        None => Err(AuthError::NotReady),
    }
}

/// Whether the session's invite artifact can be served yet.
pub fn invite_ready(session: &Session) -> (r: bool)
    ensures
        r == (session.channel is Some),
{
    match session.channel {
        Some(_) => true,
        None => false,
    }
}

/// One membership poll. With two members observed, the non-self member is
/// bound on the first such poll and every later poll reports the same
/// identity again; one member means the join is still pending; any other
/// count is an invariant violation and binds nothing.
pub fn poll_membership(session: &mut Session, members: &Vec<u32>, self_id: u32) -> (r: Result<
    PollReport,
    AuthError,
>)
    ensures
        r == poll_result(*old(session), members@, self_id),
        *final(session) == poll_next(*old(session), members@, self_id),
        old(session).wf() ==> final(session).wf(),
{
    match session.channel {
        None => Err(AuthError::NotReady),
        Some(_) => {
            if members.len() == 1 {
                Ok(PollReport::Waiting)
            } else if members.len() == 2 {
                let identity = match session.identity {
                    Some(id) => id,
                    None => {
                        if members[0] == self_id {
                            members[1]
                        } else {
                            members[0]
                        }
                    },
                };
                let send_notice = !session.notified;
                session.identity = Some(identity);
                session.notified = true;
                Ok(PollReport::Joined { identity, send_notice })
            } else {
                Err(AuthError::InvariantViolation)
            }
        },
    }
}

/// A poll reports a join exactly when the observed membership is two; on
/// that first join the non-self member and nobody else is bound, and no
/// other count ever binds or changes anything.
pub proof fn lemma_poll_success_iff_two(s: Session, members: Seq<u32>, self_id: u32)
    requires
        s.channel is Some,
    ensures
        (poll_result(s, members, self_id) matches Ok(r) && r is Joined) <==> members.len() == 2,
        members.len() == 2 && s.identity is None ==> poll_next(s, members, self_id).identity
            == Some(non_self_member(members, self_id)),
        members.len() != 2 ==> poll_next(s, members, self_id) == s,
{
}

/// Once set, the verified identity never unsets and never changes,
/// whatever membership later polls observe.
pub proof fn lemma_identity_never_unbound(s: Session, members: Seq<u32>, self_id: u32)
    requires
        s.identity is Some,
    ensures
        poll_next(s, members, self_id).identity == s.identity,
{
}

/// A session is verified at most once: once a poll has bound an identity,
/// every later two-member poll reports that same identity and leaves the
/// session's binding untouched.
pub proof fn lemma_verified_at_most_once(s: Session, m1: Seq<u32>, m2: Seq<u32>, self_id: u32)
    requires
        s.channel is Some,
        m1.len() == 2,
        m2.len() == 2,
    ensures
        ({
            let s1 = poll_next(s, m1, self_id);
            let s2 = poll_next(s1, m2, self_id);
            &&& s2.identity == s1.identity
            &&& poll_result(s1, m2, self_id) == Ok::<PollReport, AuthError>(
                PollReport::Joined { identity: s1.identity->0, send_notice: false },
            )
        }),
{
}

} // verus!
