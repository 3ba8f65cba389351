//! The inline alert: a message in one of four variants, with an optional body
//! and close button.
use vstd::prelude::*;
use crate::decimal::{append_decimal, decimal_spec, lemma_decimal_injective};
use crate::element::CallbackId;

verus! {

/// The variant of an alert.
#[derive(Clone, Copy, Debug, PartialEq, Eq, Structural)]
pub enum AlertVariant {
    /// Blue; the default.
    Info,
    /// Green.
    Success,
    /// Yellow.
    Warning,
    /// Red.
    Danger,
}

/// The icon an alert shows.
#[derive(Clone, Copy, Debug, PartialEq, Eq, Structural)]
pub enum AlertIcon {
    Info,
    CircleCheck,
    TriangleAlert,
    CircleX,
}

/// An inline alert.
#[derive(Clone, Debug)]
pub struct Alert {
    /// `alert-` and the alert's sequence number, which keeps its close button's
    /// identifier unique on the page.
    pub id: String,
    pub variant: AlertVariant,
    pub title: String,
    pub body: Option<String>,
    pub closable: bool,
    /// Run when the close button is clicked.
    pub on_close: Option<CallbackId>,
}

impl Alert {
    /// An info alert titled `title`, the `seq`th alert created: its identifier
    /// is `alert-` followed by `seq` in decimal. Not closable, without body.
    pub fn new(title: &str, seq: u64) -> (r: Alert)
        ensures
            r.id@ == "alert-"@ + decimal_spec(seq as nat),
            r.variant == AlertVariant::Info,
            r.title@ == title@,
            r.body is None,
            !r.closable,
            r.on_close is None,
    {
        let mut id = "alert-".to_owned();
        append_decimal(&mut id, seq);
        Alert {
            id,
            variant: AlertVariant::Info,
            title: title.to_owned(),
            body: None,
            closable: false,
            on_close: None,
        }
    }

    /// Sets the variant.
    pub fn variant(self, variant: AlertVariant) -> (r: Alert)
        ensures
            r == (Alert { variant, ..self }),
    {
        Alert { variant, ..self }
    }

    /// Sets the body text.
    pub fn body(self, body: &str) -> (r: Alert)
        ensures
            r.body matches Some(b) && b@ == body@,
            r == (Alert { body: r.body, ..self }),
    {
        Alert { body: Some(body.to_owned()), ..self }
    }

    /// Sets whether a close button is shown.
    pub fn closable(self, closable: bool) -> (r: Alert)
        ensures
            r == (Alert { closable, ..self }),
    {
        Alert { closable, ..self }
    }

    /// Sets the callback run when the close button is clicked.
    pub fn on_close(self, handler: CallbackId) -> (r: Alert)
        ensures
            r == (Alert { on_close: Some(handler), ..self }),
    {
        Alert { on_close: Some(handler), ..self }
    }

    /// The accent color as `0xRRGGBB` and the icon of the variant.
    pub fn accent(&self) -> (r: (u32, AlertIcon))
        ensures
            r == (match self.variant {
                AlertVariant::Info => (0x3b82f6u32, AlertIcon::Info),
                AlertVariant::Success => (0x22c55eu32, AlertIcon::CircleCheck),
                AlertVariant::Warning => (0xeab308u32, AlertIcon::TriangleAlert),
                AlertVariant::Danger => (0xef4444u32, AlertIcon::CircleX),
            }),
    {
        match self.variant {
            AlertVariant::Info => (0x3b82f6, AlertIcon::Info),
            AlertVariant::Success => (0x22c55e, AlertIcon::CircleCheck),
            AlertVariant::Warning => (0xeab308, AlertIcon::TriangleAlert),
            AlertVariant::Danger => (0xef4444, AlertIcon::CircleX),
        }
    }

    /// The identifier of the close button: the alert's followed by `-close`, when
    /// the alert is closable.
    pub fn close_button_id(&self) -> (r: Option<String>)
        ensures
            !self.closable ==> (r is None),
            self.closable ==> (r matches Some(s) && s@ == self.id@ + "-close"@),
    {
        if self.closable {
            let mut s = self.id.clone();
            s.append("-close");
            Some(s)
        } else {
            None
        }
    }
}

/// Alerts created with different sequence numbers have different identifiers,
/// and so do their close buttons.
pub proof fn lemma_distinct_alert_ids(a: u64, b: u64)
    requires
        a != b,
    ensures
        "alert-"@ + decimal_spec(a as nat) != "alert-"@ + decimal_spec(b as nat),
        "alert-"@ + decimal_spec(a as nat) + "-close"@ != "alert-"@ + decimal_spec(b as nat) + "-close"@,
{
    let p = "alert-"@;
    let sa = decimal_spec(a as nat);
    let sb = decimal_spec(b as nat);
    let c = "-close"@;
    if p + sa == p + sb {
        assert(sa =~= (p + sa).skip(p.len() as int));
        assert(sb =~= (p + sb).skip(p.len() as int));
        lemma_decimal_injective(a as nat, b as nat);
    }
    if p + sa + c == p + sb + c {
        assert((p + sa) =~= (p + sa + c).take((p + sa + c).len() - c.len()));
        assert((p + sb) =~= (p + sb + c).take((p + sb + c).len() - c.len()));
        assert(sa =~= (p + sa).skip(p.len() as int));
        assert(sb =~= (p + sb).skip(p.len() as int));
        lemma_decimal_injective(a as nat, b as nat);
    }
}

/// The identifier of the alert with sequence number `n`.
pub open spec fn alert_id_spec(n: nat) -> Seq<char> {
    "alert-"@ + decimal_spec(n)
}

/// Hands out alert sequence numbers in creation order, so that every alert it
/// creates has an identifier that none before it had.
pub struct AlertCounter {
    next: u64,
}

impl AlertCounter {
    /// The number of alerts created so far, which is the next sequence number.
    pub closed spec fn count(&self) -> nat {
        self.next as nat
    }

    /// The identifiers of the alerts created so far.
    pub open spec fn issued(&self) -> Set<Seq<char>> {
        Set::new(|s: Seq<char>| exists|i: nat| i < self.count() && s == alert_id_spec(i))
    }

    /// A counter that has created no alert.
    pub fn new() -> (r: AlertCounter)
        ensures
            r.count() == 0,
            r.issued() == Set::<Seq<char>>::empty(),
    {
        let r = AlertCounter { next: 0 };
        assert(r.issued() =~= Set::<Seq<char>>::empty());
        r
    }

    /// The next sequence number.
    pub fn next(&self) -> (r: u64)
        ensures
            r == self.count(),
    {
        self.next
    }

    /// A new info alert titled `title`, numbered with the next sequence number:
    /// its identifier is one this counter has not issued before, and is issued
    /// from now on.
    pub fn create(&mut self, title: &str) -> (r: Alert)
        requires
            old(self).count() < u64::MAX,
        ensures
            r.id@ == alert_id_spec(old(self).count()),
            r.variant == AlertVariant::Info,
            r.title@ == title@,
            r.body is None,
            !r.closable,
            r.on_close is None,
            final(self).count() == old(self).count() + 1,
            !old(self).issued().contains(r.id@),
            final(self).issued() == old(self).issued().insert(r.id@),
    {
        let seq = self.next;
        let r = Alert::new(title, seq);
        proof {
            assert forall|i: nat| i < seq implies alert_id_spec(i) != alert_id_spec(seq as nat) by {
                lemma_distinct_alert_ids(i as u64, seq);
            }
        }
        let ghost before = self.issued();
        self.next = seq + 1;
        proof {
            assert forall|s: Seq<char>| self.issued().contains(s) <==> before.insert(r.id@).contains(s) by {
                if self.issued().contains(s) {
                    let i = choose|i: nat| i < self.count() && s == alert_id_spec(i);
                    if i < seq {
                        assert(before.contains(s));
                    }
                }
                if before.contains(s) {
                    let i = choose|i: nat| i < seq && s == alert_id_spec(i);
                    assert(i < self.count() && s == alert_id_spec(i));
                }
                if s == r.id@ {
                    assert(seq < self.count() && s == alert_id_spec(seq as nat));
                }
            }
            assert(self.issued() =~= before.insert(r.id@));
        }
        r
    }
}

} // verus!
