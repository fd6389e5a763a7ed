use vstd::prelude::*;

use crate::frame::{OutputFrame, Outbound, Terminal};

verus! {

/// What a publisher has sent so far.
pub ghost struct PublisherView {
    pub outputs: Seq<OutputFrame>,
    pub finalized: bool,
    pub result: Option<Terminal>,
}

/// Output frames as they stand on the reply channel.
pub open spec fn output_frames(outputs: Seq<OutputFrame>) -> Seq<Outbound> {
    outputs.map_values(|o: OutputFrame| Outbound::Output(o))
}

/// Every frame a publisher has sent, in order: the outputs, then the
/// finalizer, then the terminal frame.
pub open spec fn sent_log(v: PublisherView) -> Seq<Outbound> {
    output_frames(v.outputs) + (if v.finalized {
        seq![Outbound::Finalizer]
    } else {
        Seq::empty()
    }) + (match v.result {
        Some(t) => seq![Outbound::Terminal(t)],
        None => Seq::empty(),
    })
}

/// A terminal frame comes only after the finalizer.
pub open spec fn publisher_wf(v: PublisherView) -> bool {
    v.result is Some ==> v.finalized
}

/// The state after `finalize_output`.
pub open spec fn finalized_view(v: PublisherView) -> PublisherView {
    PublisherView { finalized: true, ..v }
}

/// The state after `publish_result(t)`.
pub open spec fn resulted_view(v: PublisherView, t: Terminal) -> PublisherView {
    if v.result is Some {
        v
    } else {
        PublisherView { finalized: true, result: Some(t), ..v }
    }
}

/// The state after `publish_output(o)`.
pub open spec fn output_view(v: PublisherView, o: OutputFrame) -> PublisherView {
    if v.finalized {
        v
    } else {
        PublisherView { outputs: v.outputs.push(o), ..v }
    }
}

/// Whether frame `f` is a terminal frame.
pub open spec fn is_terminal(f: Outbound) -> bool {
    f is Terminal
}

/// Sends one execution's frames to its reply address, in the order it is
/// given them. The frames to send are handed back to the caller.
pub struct Publisher {
    reply_to: String,
    finalized: bool,
    result_sent: bool,
    outputs: Ghost<Seq<OutputFrame>>,
    result: Ghost<Option<Terminal>>,
}

impl View for Publisher {
    type V = PublisherView;

    closed spec fn view(&self) -> PublisherView {
        PublisherView { outputs: self.outputs@, finalized: self.finalized, result: self.result@ }
    }
}

impl Publisher {
    pub closed spec fn wf(&self) -> bool {
        &&& publisher_wf(self@)
        &&& self.result_sent == self.result@ is Some
    }

    /// The reply address this publisher sends to.
    pub closed spec fn spec_reply_to(&self) -> Seq<char> {
        self.reply_to@
    }

    /// A publisher bound to `reply_to` that has sent nothing.
    pub fn new(reply_to: String) -> (r: Publisher)
        ensures
            r.wf(),
            r@ == (PublisherView { outputs: Seq::empty(), finalized: false, result: None }),
            r.spec_reply_to() == reply_to@,
    {
        Publisher {
            reply_to,
            finalized: false,
            result_sent: false,
            outputs: Ghost(Seq::empty()),
            result: Ghost(None),
        }
    }

    /// The reply address.
    pub fn reply_to(&self) -> (r: &String)
        ensures
            r@ == self.spec_reply_to(),
    {
        &self.reply_to
    }

    /// Whether the finalizer was sent.
    pub fn is_finalized(&self) -> (r: bool)
        ensures
            r == self@.finalized,
    {
        self.finalized
    }

    /// Whether the terminal frame was sent.
    pub fn has_result(&self) -> (r: bool)
        requires
            self.wf(),
        ensures
            r == self@.result is Some,
    {
        self.result_sent
    }

    /// Forwards one output frame, unless the output stream was finalized.
    pub fn publish_output(&mut self, o: OutputFrame) -> (r: Option<Outbound>)
        requires
            old(self).wf(),
        ensures
            final(self).wf(),
            final(self).spec_reply_to() == old(self).spec_reply_to(),
            final(self)@ == output_view(old(self)@, o),
            r is Some <==> !old(self)@.finalized,
            r matches Some(f) ==> f == Outbound::Output(o),
            sent_log(final(self)@) == sent_log(old(self)@) + (match r {
                Some(f) => seq![f],
                None => Seq::empty(),
            }),
    {
        if self.finalized {
            return None;
        }
        let ghost og = o;
        let ghost ov = self@;
        self.outputs = Ghost(self.outputs@.push(og));
        assert(output_frames(self.outputs@) =~= output_frames(ov.outputs).push(Outbound::Output(og)));
        assert(sent_log(self@) =~= sent_log(ov) + seq![Outbound::Output(og)]);
        Some(Outbound::Output(o))
    }

    /// Ends the output stream. Only the first call sends a finalizer.
    pub fn finalize_output(&mut self) -> (r: Option<Outbound>)
        requires
            old(self).wf(),
        ensures
            final(self).wf(),
            final(self).spec_reply_to() == old(self).spec_reply_to(),
            final(self)@ == finalized_view(old(self)@),
            r is Some <==> !old(self)@.finalized,
            r matches Some(f) ==> f == Outbound::Finalizer,
            sent_log(final(self)@) == sent_log(old(self)@) + (match r {
                Some(f) => seq![f],
                None => Seq::empty(),
            }),
    {
        if self.finalized {
            assert(finalized_view(self@) =~= self@);
            assert(sent_log(self@) =~= sent_log(self@) + Seq::empty());
            return None;
        }
        let ghost ov = self@;
        self.finalized = true;
        assert(sent_log(self@) =~= sent_log(ov) + seq![Outbound::Finalizer]);
        Some(Outbound::Finalizer)
    }

    /// Sends the terminal frame, after the finalizer if that was not sent yet.
    /// Only the first call sends anything.
    pub fn publish_result(&mut self, t: Terminal) -> (r: Vec<Outbound>)
        requires
            old(self).wf(),
        ensures
            final(self).wf(),
            final(self).spec_reply_to() == old(self).spec_reply_to(),
            final(self)@ == resulted_view(old(self)@, t),
            old(self)@.result is Some ==> r@ == Seq::<Outbound>::empty(),
            old(self)@.result is None && old(self)@.finalized ==> r@ == seq![Outbound::Terminal(t)],
            old(self)@.result is None && !old(self)@.finalized ==> r@ == seq![
                Outbound::Finalizer,
                Outbound::Terminal(t),
            ],
            sent_log(final(self)@) == sent_log(old(self)@) + r@,
    {
        let mut frames: Vec<Outbound> = Vec::new();
        if self.result_sent {
            assert(sent_log(self@) =~= sent_log(self@) + frames@);
            return frames;
        }
        let ghost ov = self@;
        let ghost tg = t;
        if !self.finalized {
            self.finalized = true;
            frames.push(Outbound::Finalizer);
        }
        self.result_sent = true;
        self.result = Ghost(Some(tg));
        frames.push(Outbound::Terminal(t));
        assert(self@ =~= resulted_view(ov, tg));
        assert(sent_log(self@) =~= sent_log(ov) + frames@);
        frames
    }
}

/// A publisher sends at most one terminal frame, and it is the last frame
/// it sends.
pub proof fn at_most_one_terminal(v: PublisherView)
    requires
        publisher_wf(v),
    ensures
        forall|i: int, j: int|
            0 <= i < sent_log(v).len() && 0 <= j < sent_log(v).len() && is_terminal(
                #[trigger] sent_log(v)[i],
            ) && is_terminal(#[trigger] sent_log(v)[j]) ==> i == j,
        forall|i: int|
            0 <= i < sent_log(v).len() && is_terminal(#[trigger] sent_log(v)[i]) ==> i
                == sent_log(v).len() - 1,
{
    let log = sent_log(v);
    let n = v.outputs.len();
    assert forall|i: int| 0 <= i < log.len() && is_terminal(#[trigger] log[i]) implies i == log.len()
        - 1 by {
        if i < n {
            assert(log[i] == Outbound::Output(v.outputs[i]));
        } else if v.finalized && i == n {
            assert(log[i] == Outbound::Finalizer);
        }
    }
}

/// Finalizing twice sends what finalizing once sends: one finalizer.
pub proof fn finalize_twice(v: PublisherView)
    ensures
        finalized_view(finalized_view(v)) == finalized_view(v),
        sent_log(finalized_view(finalized_view(v))) == sent_log(finalized_view(v)),
        !v.finalized && v.result is None ==> sent_log(finalized_view(v)) == sent_log(v) + seq![
            Outbound::Finalizer,
        ],
{
    assert(finalized_view(finalized_view(v)) =~= finalized_view(v));
    if !v.finalized && v.result is None {
        assert(sent_log(finalized_view(v)) =~= sent_log(v) + seq![Outbound::Finalizer]);
    }
}

/// Outputs stand on the reply channel in the order they were forwarded: the
/// `i`-th forwarded output is the `i`-th frame sent.
pub proof fn outputs_in_order(v: PublisherView)
    ensures
        forall|i: int|
            0 <= i < v.outputs.len() ==> #[trigger] sent_log(v)[i] == Outbound::Output(v.outputs[i]),
{
}

} // verus!
