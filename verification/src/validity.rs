//! Validity: whether what the user entered is valid, as far as can be told
//! at once (synchronously) and after the database has been asked
//! (asynchronously).

use tokio::sync::mpsc::error::TryRecvError;
use tokio::sync::mpsc::Receiver;
use vstd::prelude::*;

verus! {

/// The receiving half of a bounded channel of `tokio`; it delivers the
/// answers of the database.
#[verifier::external_type_specification]
#[verifier::external_body]
#[verifier::reject_recursive_types(T)]
pub struct ExReceiver<T>(tokio::sync::mpsc::Receiver<T>);

/// What looking at a channel found
#[derive(Debug)]
pub enum ChannelPoll<T> {
    /// A message had arrived
    Message(T),
    /// Nothing has arrived yet
    Empty,
    /// Nothing has arrived and nothing will: the sender is gone
    Disconnected,
}

/// `tokio::sync::mpsc::Receiver::try_recv`: takes a message if one has
/// arrived.  What it finds depends on when it is called, so nothing is
/// claimed of it.
#[verifier::external_body]
fn poll_receiver<T>(rx: &mut Receiver<T>) -> (poll: ChannelPoll<T>) {
    match rx.try_recv() {
        Ok(message) => ChannelPoll::Message(message),
        Err(TryRecvError::Empty) => ChannelPoll::Empty,
        Err(TryRecvError::Disconnected) => ChannelPoll::Disconnected,
    }
}

/// Whether an empty input is to be regarded as invalid
#[derive(Debug, Clone, Copy, PartialEq, Eq, Structural)]
pub enum EmptyConsideredInvalid {
    Yes,
    No,
}

/// Used to indicate the asynchronous validity of something (i.e. the aspects of
/// validity that need to be done asynchronously, such as checking against the
/// database)
#[derive(Debug, PartialEq, Eq)]
pub enum ValidityAsynchronous {
    Valid,
    Invalid(String),
    Waiting,
}

/// Used to indicate the synchronous validity of something (i.e. the aspects of
/// validity that can done synchronously, such as checking it's structure)
#[derive(Debug, Clone, PartialEq, Eq, Hash)]
pub enum ValiditySynchronous {
    Valid,
    Invalid(String),
}

impl ValiditySynchronous {
    /// The message of an invalid value
    pub fn invalid_msg(&self) -> (msg: String)
        requires
            *self is Invalid,
        ensures
            msg@ == self->Invalid_0@,
    {
        match self {
            ValiditySynchronous::Invalid(invalid_msg) => invalid_msg.clone(),
            ValiditySynchronous::Valid => {
                assert(false);
                String::new()
            },
        }
    }

    /// A copy of the value
    pub fn duplicate(&self) -> (copy: Self)
        ensures
            copy == *self,
    {
        match self {
            ValiditySynchronous::Valid => ValiditySynchronous::Valid,
            ValiditySynchronous::Invalid(msg) => ValiditySynchronous::Invalid(msg.clone()),
        }
    }

    /// Whether the value is `Valid`
    pub fn is_valid(&self) -> (valid: bool)
        ensures
            valid == (*self is Valid),
    {
        match self {
            ValiditySynchronous::Valid => true,
            ValiditySynchronous::Invalid(_) => false,
        }
    }
}

impl ValidityAsynchronous {
    /// A copy of the value
    pub fn duplicate(&self) -> (copy: Self)
        ensures
            copy == *self,
    {
        match self {
            ValidityAsynchronous::Valid => ValidityAsynchronous::Valid,
            ValidityAsynchronous::Invalid(msg) => ValidityAsynchronous::Invalid(msg.clone()),
            ValidityAsynchronous::Waiting => ValidityAsynchronous::Waiting,
        }
    }

    /// Whether the value is `Valid`
    pub fn is_valid(&self) -> (valid: bool)
        ensures
            valid == (*self is Valid),
    {
        match self {
            ValidityAsynchronous::Valid => true,
            _ => false,
        }
    }
}

/// Holds everything needed for calculating & holding validity information
#[derive(Debug)]
#[verifier::reject_recursive_types(T)]
#[verifier::reject_recursive_types(E)]
pub struct ValitityStatus<T, E> {
    /// Whether the thing being validated is valid or not, without regard for
    /// any async validation required.
    synchronous: ValiditySynchronous,
    /// A channel which if extant receives asynchronous validation updates.
    rx_asynchronous: Option<tokio::sync::mpsc::Receiver<Result<T, E>>>,
    /// Whether the thing being validated has been asynchronoulsy validated,
    /// and if so whether or not is it valid or not.
    asynchronous: Option<Result<(), E>>,
}

impl<T, E> ValitityStatus<T, E> {
    /// The synchronous validity held
    pub closed spec fn synchronous_spec(&self) -> ValiditySynchronous {
        self.synchronous
    }

    /// Whether a channel is held on which an asynchronous answer may arrive
    pub open spec fn awaits_answer(&self) -> bool {
        self.receiver() is Some
    }

    /// The channel held, on which an answer may arrive
    pub closed spec fn receiver(&self) -> Option<Receiver<Result<T, E>>> {
        self.rx_asynchronous
    }

    /// The asynchronous validity held
    pub closed spec fn asynchronous_spec(&self) -> Option<Result<(), E>> {
        self.asynchronous
    }

    /// Create a new `ValitityStatus`
    pub fn from(synchronous: ValiditySynchronous, asynchronous: Option<Result<(), E>>) -> (status:
        Self)
        ensures
            status.synchronous_spec() == synchronous,
            !status.awaits_answer(),
            status.asynchronous_spec() == asynchronous,
    {
        Self { synchronous, rx_asynchronous: None, asynchronous }
    }

    /// Set the value of the synchronous validity
    pub fn set_synchronous(&mut self, validity: ValiditySynchronous)
        ensures
            final(self).synchronous_spec() == validity,
            final(self).awaits_answer() == old(self).awaits_answer(),
            final(self).asynchronous_spec() == old(self).asynchronous_spec(),
            final(self).receiver() == old(self).receiver(),
    {
        self.synchronous = validity
    }

    /// Set the asynchronous validity
    pub fn set_asynchronous(&mut self, validity: Option<Result<(), E>>)
        ensures
            final(self).synchronous_spec() == old(self).synchronous_spec(),
            final(self).awaits_answer() == old(self).awaits_answer(),
            final(self).asynchronous_spec() == validity,
            final(self).receiver() == old(self).receiver(),
    {
        self.asynchronous = validity;
    }

    /// The database has been asked: its answer will come on `rx`, and until
    /// it does the asynchronous validity is unknown
    pub fn await_answer(&mut self, rx: Receiver<Result<T, E>>)
        ensures
            final(self).synchronous_spec() == old(self).synchronous_spec(),
            final(self).awaits_answer(),
            final(self).asynchronous_spec() is None,
            final(self).receiver() == Some(rx),
    {
        self.asynchronous = None;
        self.rx_asynchronous = Some(rx);
    }

    /// Look for the database's answer on the channel, if one is held: an
    /// answer is handed back and the channel dropped; while none has arrived
    /// the asynchronous validity is unknown (`None`); a channel whose sender
    /// is gone is dropped
    pub fn poll_answer(&mut self) -> (answer: Option<Result<T, E>>)
        ensures
            final(self).synchronous_spec() == old(self).synchronous_spec(),
            !old(self).awaits_answer() ==> answer is None && final(self).asynchronous_spec()
                == old(self).asynchronous_spec() && !final(self).awaits_answer(),
            answer is Some ==> old(self).awaits_answer() && !final(self).awaits_answer()
                && final(self).asynchronous_spec() == old(self).asynchronous_spec(),
            (old(self).awaits_answer() && answer is None) ==> ((final(self).awaits_answer()
                && final(self).asynchronous_spec() is None) || (!final(self).awaits_answer()
                && final(self).asynchronous_spec() == old(self).asynchronous_spec())),
    {
        let poll = match &mut self.rx_asynchronous {
            Some(rx) => poll_receiver(rx),
            None => {
                return None;
            },
        };
        self.settle(poll)
    }

    /// Act upon what looking at the channel found: a message is handed back
    /// and the channel dropped; while nothing has arrived the channel is kept
    /// and the asynchronous validity is unknown (`None`); a channel whose
    /// sender is gone is dropped
    pub fn settle(&mut self, poll: ChannelPoll<Result<T, E>>) -> (answer: Option<Result<T, E>>)
        ensures
            final(self).synchronous_spec() == old(self).synchronous_spec(),
            match poll {
                ChannelPoll::Message(m) => {
                    &&& answer == Some(m)
                    &&& final(self).receiver() is None
                    &&& final(self).asynchronous_spec() == old(self).asynchronous_spec()
                },
                ChannelPoll::Empty => {
                    &&& answer is None
                    &&& final(self).receiver() == old(self).receiver()
                    &&& final(self).asynchronous_spec() is None
                },
                ChannelPoll::Disconnected => {
                    &&& answer is None
                    &&& final(self).receiver() is None
                    &&& final(self).asynchronous_spec() == old(self).asynchronous_spec()
                },
            },
    {
        match poll {
            ChannelPoll::Message(message) => {
                self.rx_asynchronous = None;
                Some(message)
            },
            ChannelPoll::Empty => {
                self.asynchronous = None;
                None
            },
            ChannelPoll::Disconnected => {
                self.rx_asynchronous = None;
                None
            },
        }
    }

    /// The asynchronous validity held: `None` while it is unknown
    pub fn asynchronous(&self) -> (validity: &Option<Result<(), E>>)
        ensures
            *validity == self.asynchronous_spec(),
    {
        &self.asynchronous
    }

    /// Whether a channel is held on which an asynchronous answer may arrive
    pub fn is_awaiting_answer(&self) -> (awaiting: bool)
        ensures
            awaiting == self.awaits_answer(),
    {
        self.rx_asynchronous.is_some()
    }

    /// Get the value of the synchronous validity
    pub fn synchronous(&self) -> (validity: ValiditySynchronous)
        ensures
            validity == self.synchronous_spec(),
    {
        self.synchronous.duplicate()
    }
}

impl<E> ValitityStatus<bool, E> {
    /// What acting upon a look at the channel of a name lookup makes of the
    /// status `before`, as far as the status `after` shows it: an answer
    /// (whether the name is taken) sets the validity (a free name is valid, a
    /// taken one gets the error `taken`, a failed lookup its own error) and
    /// drops the channel; while nothing has arrived a channel is kept and the
    /// validity is unknown; a channel whose sender is gone is dropped and the
    /// validity left as it was.  The synchronous validity is never touched.
    pub open spec fn name_lookup_settled(
        before: Self,
        after: Self,
        poll: ChannelPoll<Result<bool, E>>,
        taken: E,
    ) -> bool {
        &&& after.synchronous_spec() == before.synchronous_spec()
        &&& match poll {
            ChannelPoll::Message(m) => {
                &&& !after.awaits_answer()
                &&& after.asynchronous_spec() == Some(
                    match m {
                        Ok(false) => Ok(()),
                        Ok(true) => Err(taken),
                        Err(e) => Err(e),
                    },
                )
            },
            ChannelPoll::Empty => {
                &&& after.awaits_answer()
                &&& after.asynchronous_spec() is None
            },
            ChannelPoll::Disconnected => {
                &&& !after.awaits_answer()
                &&& after.asynchronous_spec() == before.asynchronous_spec()
            },
        }
    }

    /// Act upon what looking for the answer to a name lookup found: the
    /// database answers whether the name is taken.  A free name is valid, a
    /// taken one gets the error `taken`, a failed lookup its own error; any
    /// answer drops the channel.  While nothing has arrived the channel is
    /// kept and the validity is unknown; a channel whose sender is gone is
    /// dropped.
    pub fn settle_name_lookup(&mut self, poll: ChannelPoll<Result<bool, E>>, taken: E)
        ensures
            final(self).synchronous_spec() == old(self).synchronous_spec(),
            match poll {
                ChannelPoll::Message(m) => {
                    &&& final(self).receiver() is None
                    &&& final(self).asynchronous_spec() == Some(
                        match m {
                            Ok(false) => Ok(()),
                            Ok(true) => Err(taken),
                            Err(e) => Err(e),
                        },
                    )
                },
                ChannelPoll::Empty => {
                    &&& final(self).receiver() == old(self).receiver()
                    &&& final(self).asynchronous_spec() is None
                },
                ChannelPoll::Disconnected => {
                    &&& final(self).receiver() is None
                    &&& final(self).asynchronous_spec() == old(self).asynchronous_spec()
                },
            },
    {
        match self.settle(poll) {
            Some(answer) => {
                let validity = match answer {
                    Ok(false) => Ok(()),
                    Ok(true) => Err(taken),
                    Err(e) => Err(e),
                };
                self.set_asynchronous(Some(validity));
            },
            None => {},
        }
    }

    /// Look for the answer to a name lookup, if one is awaited, and act upon
    /// it (see [`Self::settle_name_lookup`]).  What the channel holds depends
    /// on when it is looked at, so the contract says that one of the three
    /// outcomes took place; without a channel nothing changes.
    pub fn poll_name_lookup(&mut self, taken: E)
        ensures
            final(self).synchronous_spec() == old(self).synchronous_spec(),
            !old(self).awaits_answer() ==> final(self).receiver() == old(self).receiver()
                && final(self).asynchronous_spec() == old(self).asynchronous_spec(),
            old(self).awaits_answer() ==> exists|poll: ChannelPoll<Result<bool, E>>|
                #[trigger] Self::name_lookup_settled(*old(self), *final(self), poll, taken),
    {
        let ghost before = *self;
        let ghost taken_value = taken;
        let poll = match &mut self.rx_asynchronous {
            Some(rx) => poll_receiver(rx),
            None => {
                return ;
            },
        };
        let ghost polled = poll;
        assert(self.awaits_answer());
        assert(self.asynchronous_spec() == before.asynchronous_spec());
        self.settle_name_lookup(poll, taken);
        assert(Self::name_lookup_settled(before, *self, polled, taken_value));
    }
}

/// The first validity in the list that is not `Valid`, or `Valid` when all
/// are
pub open spec fn first_not_valid(validities: Seq<ValidityAsynchronous>) -> ValidityAsynchronous
    decreases validities.len(),
{
    if validities.len() == 0 {
        ValidityAsynchronous::Valid
    } else if validities[0] is Valid {
        first_not_valid(validities.drop_first())
    } else {
        validities[0]
    }
}

/// The first invalid entry of the list, or `Valid` when all are valid
pub open spec fn first_invalid(validities: Seq<ValiditySynchronous>) -> ValiditySynchronous
    decreases validities.len(),
{
    if validities.len() == 0 {
        ValiditySynchronous::Valid
    } else if validities[0] is Valid {
        first_invalid(validities.drop_first())
    } else {
        validities[0]
    }
}

/// `first_not_valid` over a prefix, one more entry at a time
proof fn lemma_first_not_valid_prefix(s: Seq<ValidityAsynchronous>, i: int)
    requires
        0 <= i < s.len(),
        forall|j: int| 0 <= j < i ==> s[j] is Valid,
    ensures
        first_not_valid(s) == first_not_valid(s.subrange(i, s.len() as int)),
    decreases i,
{
    if i > 0 {
        let t = s.drop_first();
        assert forall|j: int| 0 <= j < i - 1 implies t[j] is Valid by {
            assert(t[j] == s[j + 1]);
        }
        lemma_first_not_valid_prefix(t, i - 1);
        assert(t.subrange(i - 1, t.len() as int) =~= s.subrange(i, s.len() as int));
    } else {
        assert(s.subrange(0, s.len() as int) =~= s);
    }
}

/// `first_not_valid` of a list of valid entries
proof fn lemma_first_not_valid_all_valid(s: Seq<ValidityAsynchronous>)
    requires
        forall|j: int| 0 <= j < s.len() ==> s[j] is Valid,
    ensures
        first_not_valid(s) is Valid,
    decreases s.len(),
{
    if s.len() > 0 {
        let t = s.drop_first();
        assert forall|j: int| 0 <= j < t.len() implies t[j] is Valid by {
            assert(t[j] == s[j + 1]);
        }
        lemma_first_not_valid_all_valid(t);
    }
}

/// `first_invalid` over a prefix, one more entry at a time
proof fn lemma_first_invalid_prefix(s: Seq<ValiditySynchronous>, i: int)
    requires
        0 <= i < s.len(),
        forall|j: int| 0 <= j < i ==> s[j] is Valid,
    ensures
        first_invalid(s) == first_invalid(s.subrange(i, s.len() as int)),
    decreases i,
{
    if i > 0 {
        let t = s.drop_first();
        assert forall|j: int| 0 <= j < i - 1 implies t[j] is Valid by {
            assert(t[j] == s[j + 1]);
        }
        lemma_first_invalid_prefix(t, i - 1);
        assert(t.subrange(i - 1, t.len() as int) =~= s.subrange(i, s.len() as int));
    } else {
        assert(s.subrange(0, s.len() as int) =~= s);
    }
}

/// `first_invalid` of a list of valid entries
proof fn lemma_first_invalid_all_valid(s: Seq<ValiditySynchronous>)
    requires
        forall|j: int| 0 <= j < s.len() ==> s[j] is Valid,
    ensures
        first_invalid(s) is Valid,
    decreases s.len(),
{
    if s.len() > 0 {
        let t = s.drop_first();
        assert forall|j: int| 0 <= j < t.len() implies t[j] is Valid by {
            assert(t[j] == s[j + 1]);
        }
        lemma_first_invalid_all_valid(t);
    }
}

/// The validity of a collection of things: the first that is invalid or
/// still waiting decides, and the collection is valid when every part is.
pub fn combined_validity(validities: &Vec<ValidityAsynchronous>) -> (validity:
    ValidityAsynchronous)
    ensures
        validity == first_not_valid(validities@),
{
    for i in 0..validities.len()
        invariant
            forall|j: int| 0 <= j < i ==> validities@[j] is Valid,
    {
        if !validities[i].is_valid() {
            proof {
                lemma_first_not_valid_prefix(validities@, i as int);
            }
            return validities[i].duplicate();
        }
    }
    proof {
        lemma_first_not_valid_all_valid(validities@);
    }
    ValidityAsynchronous::Valid
}

/// The synchronous validity of a collection of things: the first invalid one
/// decides, and the collection is valid when every part is.
pub fn combined_validity_synchronous(validities: &Vec<ValiditySynchronous>) -> (validity:
    ValiditySynchronous)
    ensures
        validity == first_invalid(validities@),
{
    for i in 0..validities.len()
        invariant
            forall|j: int| 0 <= j < i ==> validities@[j] is Valid,
    {
        if !validities[i].is_valid() {
            proof {
                lemma_first_invalid_prefix(validities@, i as int);
            }
            return validities[i].duplicate();
        }
    }
    proof {
        lemma_first_invalid_all_valid(validities@);
    }
    ValiditySynchronous::Valid
}

/// A collection is valid exactly when each of its parts is
pub proof fn law_combined_validity_is_valid_iff_all_valid(s: Seq<ValidityAsynchronous>)
    ensures
        (first_not_valid(s) is Valid) <==> (forall|j: int| 0 <= j < s.len() ==> s[j] is Valid),
    decreases s.len(),
{
    if s.len() > 0 {
        law_combined_validity_is_valid_iff_all_valid(s.drop_first());
        if first_not_valid(s) is Valid {
            assert forall|j: int| 0 <= j < s.len() implies s[j] is Valid by {
                if j > 0 {
                    assert(s.drop_first()[j - 1] == s[j]);
                }
            }
        }
        if forall|j: int| 0 <= j < s.len() ==> s[j] is Valid {
            assert forall|j: int| 0 <= j < s.len() - 1 implies s.drop_first()[j] is Valid by {
                assert(s.drop_first()[j] == s[j + 1]);
            }
        }
    }
}

/// Implementing types can be validated in their structure/format/etc.  Whether
/// they are valid with reference to others is not dealt with here.  For
/// example, the name of a subtimeline may be valid, but it may fail other
/// checks due to it not actaully being the name of a timeline.
///
/// These checks are all synchronous. The other checks may not be.
pub trait ValidSynchronous {
    /// The synchronous validity that the value holds
    spec fn synchronous_validity(&self) -> ValiditySynchronous;

    /// Is the target data synchronously valid (no database checks)
    fn is_valid_synchronous(&self) -> (valid: bool)
        ensures
            valid == (self.synchronous_validity() is Valid),
    ;

    /// Whether the synchronous checks, run on the value's present inputs,
    /// give the validity `v`
    spec fn checks_give(&self, v: ValiditySynchronous) -> bool;

    /// Re-run the synchronous validation checks: the value then holds what
    /// the checks give, and its inputs are left as they were
    fn update_validity_synchronous(&mut self)
        ensures
            old(self).checks_give(final(self).synchronous_validity()),
            forall|v: ValiditySynchronous| #[trigger]
                final(self).checks_give(v) == old(self).checks_give(v),
    ;

    /// Get the synchronous validity ([`ValiditySynchronous`])
    fn validity_synchronous(&self) -> (validity: ValiditySynchronous)
        ensures
            validity == self.synchronous_validity(),
    ;
}

/// Implementing types can be validated in their relations to other things and
/// the database.  For example, if the name of a subtimeline is asynchronously
/// valid it means that it appears as a timeline in the database.
pub trait ValidAsynchronous: ValidSynchronous {
    type Error: core::fmt::Display;

    /// The asynchronous validity that the value holds: `None` while waiting
    spec fn asynchronous_validity(&self) -> Option<Result<(), Self::Error>>;

    /// Is the target data asynchronously valid (database checks)
    fn is_valid_asynchronous(&self) -> (validity: Option<Result<(), Self::Error>>)
        ensures
            validity == self.asynchronous_validity(),
    ;

    /// Set off the asynchronous validation checks; the synchronous validity
    /// and the inputs are left as they were
    fn trigger_asynchronous_validity_update(&mut self)
        ensures
            final(self).synchronous_validity() == old(self).synchronous_validity(),
            forall|v: ValiditySynchronous| #[trigger]
                final(self).checks_give(v) == old(self).checks_give(v),
    ;

    /// Receive any aysnchronous validity updates
    fn check_for_asynchronous_validity_response(&mut self);
}

/// The overall validity of a value from its synchronous and asynchronous
/// validity: synchronously invalid values are invalid with that message,
/// otherwise the asynchronous checks decide (`Waiting` while there is no
/// answer, and an error is invalid with the text that the error displays).
pub open spec fn overall_validity_matches<Er: core::fmt::Display>(
    synchronous: ValiditySynchronous,
    asynchronous: Option<Result<(), Er>>,
    validity: ValidityAsynchronous,
) -> bool {
    match synchronous {
        ValiditySynchronous::Invalid(msg) => validity == ValidityAsynchronous::Invalid(msg),
        ValiditySynchronous::Valid => match asynchronous {
            Some(Ok(())) => validity is Valid,
            Some(Err(e)) => validity matches ValidityAsynchronous::Invalid(msg)
                && vstd::string::to_string_from_display_ensures::<Er>(&e, msg),
            None => validity is Waiting,
        },
    }
}

/// Implementing types can be validated in all regards (synchronous and
/// asynchronous validity).  External code should only use these functions.
pub trait Valid: ValidSynchronous + ValidAsynchronous {
    /// Whether the data is both synchronoulsy & asynchronously valid or not.
    fn validity(&self) -> (validity: ValidityAsynchronous)
        default_ensures
            overall_validity_matches(
                self.synchronous_validity(),
                self.asynchronous_validity(),
                validity,
            ),
    {
        if !self.is_valid_synchronous() {
            return match self.validity_synchronous() {
                ValiditySynchronous::Invalid(error) => ValidityAsynchronous::Invalid(error),
                ValiditySynchronous::Valid => {
                    assert(false);
                    ValidityAsynchronous::Waiting
                },
            };
        }
        match self.is_valid_asynchronous() {
            Some(result) => match result {
                Ok(()) => ValidityAsynchronous::Valid,
                Err(error) => ValidityAsynchronous::Invalid(error.to_string()),
            },
            None => ValidityAsynchronous::Waiting,
        }
    }

    /// Re-run validity checking code (short circuits if the data is
    /// synchronously invalid): afterwards the value holds the synchronous
    /// validity that its checks give, and its inputs are as they were
    fn update_validity(&mut self)
        default_ensures
            old(self).checks_give(final(self).synchronous_validity()),
            forall|v: ValiditySynchronous| #[trigger]
                final(self).checks_give(v) == old(self).checks_give(v),
    {
        self.update_validity_synchronous();
        if !self.is_valid_synchronous() {
            return;
        }
        self.trigger_asynchronous_validity_update();
    }
}

/// The combined validity is that of the first part, in order, that is not
/// valid: an invalid part is not hidden by a later part that is waiting, nor
/// a waiting part by a later invalid one
pub proof fn law_first_part_not_valid_decides(s: Seq<ValidityAsynchronous>, i: int)
    requires
        0 <= i < s.len(),
        forall|j: int| 0 <= j < i ==> s[j] is Valid,
        !(s[i] is Valid),
    ensures
        first_not_valid(s) == s[i],
{
    lemma_first_not_valid_prefix(s, i);
}

/// The combined synchronous validity is that of the first invalid part, in
/// order
pub proof fn law_first_invalid_part_decides(s: Seq<ValiditySynchronous>, i: int)
    requires
        0 <= i < s.len(),
        forall|j: int| 0 <= j < i ==> s[j] is Valid,
        !(s[i] is Valid),
    ensures
        first_invalid(s) == s[i],
{
    lemma_first_invalid_prefix(s, i);
}

} // verus!
