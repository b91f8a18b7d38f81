//! The progress broadcaster: a registry of observers, each holding the
//! receiving end of an unbounded channel, to which percentage updates are
//! published during a download.
//!
//! Delivery is modelled with ghost state. Every observer gets a fresh
//! identity when it subscribes, and the registry keeps a ghost log of every
//! delivery it ever made, as pairs of observer identity and progress value.
//! The log never names an identity that has not been issued yet, which is
//! exactly why an observer attached after a download completed — indeed,
//! attached at any time — can never have been sent an earlier event.

use vstd::prelude::*;
use crate::progress::format_hundredths;
use crate::progress::percent_text_spec;

verus! {

#[verifier::external_type_specification]
#[verifier::external_body]
#[verifier::reject_recursive_types(T)]
pub struct ExUnboundedSender<T>(futures_channel::mpsc::UnboundedSender<T>);

#[verifier::external_type_specification]
#[verifier::external_body]
#[verifier::reject_recursive_types(T)]
pub struct ExUnboundedReceiver<T>(futures_channel::mpsc::UnboundedReceiver<T>);

/// Relies on `futures_channel::mpsc::unbounded` to create the channel a new
/// observer will read progress events from.
#[verifier::external_body]
fn open_channel() -> (futures_channel::mpsc::UnboundedSender<String>, futures_channel::mpsc::UnboundedReceiver<
    String,
>) {
    futures_channel::mpsc::unbounded()
}

/// Relies on `futures_channel::mpsc::UnboundedSender::unbounded_send` to
/// hand one message to one observer. Best-effort: a disconnected observer
/// makes the call fail, which is reported but never propagated.
#[verifier::external_body]
fn offer_message(tx: &futures_channel::mpsc::UnboundedSender<String>, msg: String) -> (ok: bool) {
    tx.unbounded_send(msg).is_ok()
}

/// One recorded delivery: which observer was sent which progress value
/// (in hundredths of a percent).
pub ghost struct Delivery {
    pub observer: nat,
    pub hundredths: nat,
}

/// The registry of progress observers of the running process.
///
/// Shared across requests: a download publishes to whoever is subscribed at
/// that moment, and clears the registry when it reaches its terminal state,
/// so the next download starts with no observers carried over.
pub struct ProgressRegistry {
    senders: Vec<futures_channel::mpsc::UnboundedSender<String>>,
    ids: Ghost<Seq<nat>>,
    issued: Ghost<nat>,
    log: Ghost<Seq<Delivery>>,
}

impl ProgressRegistry {
    /// The identities of the currently subscribed observers, in
    /// subscription order.
    pub closed spec fn observers(&self) -> Seq<nat> {
        self.ids@
    }

    /// How many observer identities have ever been issued; also the
    /// identity the next subscriber will get.
    pub closed spec fn issued(&self) -> nat {
        self.issued@
    }

    /// Every delivery this registry ever attempted, in order. Delivery is
    /// best-effort, so an entry means the event was offered to that
    /// observer's channel, not that the observer read it.
    pub closed spec fn deliveries(&self) -> Seq<Delivery> {
        self.log@
    }

    /// Each live observer identity is distinct and was issued, and the log
    /// only names issued identities.
    pub closed spec fn wf(&self) -> bool {
        &&& self.ids@.len() == self.senders@.len()
        &&& forall|i: int| 0 <= i < self.ids@.len() ==> self.ids@[i] < self.issued@
        &&& forall|i: int, j: int|
            0 <= i < j < self.ids@.len() ==> self.ids@[i] != self.ids@[j]
        &&& forall|k: int| 0 <= k < self.log@.len() ==> self.log@[k].observer < self.issued@
    }

    /// A registry with no observers and an empty history.
    pub fn new() -> (r: ProgressRegistry)
        ensures
            r.wf(),
            r.observers() =~= Seq::<nat>::empty(),
            r.deliveries() =~= Seq::<Delivery>::empty(),
            r.issued() == 0,
    {
        ProgressRegistry {
            senders: Vec::new(),
            ids: Ghost(Seq::empty()),
            issued: Ghost(0),
            log: Ghost(Seq::empty()),
        }
    }

    /// Registers a new observer and returns the stream it will read its
    /// events from. The observer's identity is fresh: no delivery in the
    /// registry's history names it.
    pub fn subscribe(&mut self) -> (rx: futures_channel::mpsc::UnboundedReceiver<String>)
        requires
            old(self).wf(),
        ensures
            final(self).wf(),
            final(self).observers() == old(self).observers().push(old(self).issued()),
            final(self).issued() == old(self).issued() + 1,
            final(self).deliveries() == old(self).deliveries(),
            forall|k: int|
                0 <= k < old(self).deliveries().len() ==> old(self).deliveries()[k].observer
                    != old(self).issued(),
    {
        let (tx, rx) = open_channel();
        self.senders.push(tx);
        proof {
            self.ids@ = self.ids@.push(self.issued@);
            self.issued@ = self.issued@ + 1;
        }
        rx
    }

    /// Publishes one progress value (in hundredths of a percent) to every
    /// currently subscribed observer, formatted with two decimal places.
    /// Best-effort: a blocked or disconnected observer is skipped without
    /// affecting delivery to the others, and the observer set is unchanged.
    pub fn publish(&mut self, hundredths: u64)
        requires
            old(self).wf(),
        ensures
            final(self).wf(),
            final(self).observers() == old(self).observers(),
            final(self).issued() == old(self).issued(),
            final(self).deliveries() == old(self).deliveries() + Seq::new(
                old(self).observers().len(),
                |i: int|
                    Delivery {
                        observer: old(self).observers()[i],
                        hundredths: hundredths as nat,
                    },
            ),
    {
        let ghost all_new = Seq::new(
            self.ids@.len(),
            |i: int| Delivery { observer: self.ids@[i], hundredths: hundredths as nat },
        );
        let message = format_hundredths(hundredths);
        let n = self.senders.len();
        let mut sent: usize = 0;
        while sent < n
            invariant
                sent <= n,
                n == self.senders@.len(),
                self.wf(),
                self.ids@ == old(self).observers(),
                self.issued@ == old(self).issued(),
                all_new == Seq::new(
                    self.ids@.len(),
                    |i: int| Delivery { observer: self.ids@[i], hundredths: hundredths as nat },
                ),
                self.log@ == old(self).deliveries() + all_new.subrange(0, sent as int),
                message@ == percent_text_spec(hundredths as nat),
            decreases n - sent,
        {
            let _delivered = offer_message(&self.senders[sent], message.clone());
            proof {
                self.log@ = self.log@.push(all_new[sent as int]);
                assert(old(self).deliveries() + all_new.subrange(0, sent as int + 1) =~= (old(
                    self,
                ).deliveries() + all_new.subrange(0, sent as int)).push(all_new[sent as int]));
            }
            sent = sent + 1;
        }
        proof {
            assert(all_new.subrange(0, n as int) =~= all_new);
        }
    }

    /// Drops every observer, as the pipeline does once a download reaches
    /// its terminal state (success or failure): the next download starts
    /// with zero observers carried over.
    pub fn reset(&mut self)
        requires
            old(self).wf(),
        ensures
            final(self).wf(),
            final(self).observers() =~= Seq::<nat>::empty(),
            final(self).issued() == old(self).issued(),
            final(self).deliveries() == old(self).deliveries(),
    {
        self.senders.clear();
        proof {
            self.ids@ = Seq::empty();
        }
    }

    /// How many observers are currently subscribed.
    pub fn observer_count(&self) -> (n: usize)
        requires
            self.wf(),
        ensures
            n == self.observers().len(),
    {
        self.senders.len()
    }
}

/// A freshly attached observer has never been delivered an event: every
/// delivery in the registry's history — in particular every event of a
/// download that already completed — names an observer identity older than
/// the one the next subscriber receives.
pub proof fn lemma_new_observer_sees_no_past_events(r: &ProgressRegistry)
    requires
        r.wf(),
    ensures
        forall|k: int| 0 <= k < r.deliveries().len() ==> r.deliveries()[k].observer != r.issued(),
{
}

} // verus!
