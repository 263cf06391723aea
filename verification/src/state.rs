//! The bot process's state: its API key, polling offset, websocket channel and subscribers.
use vstd::prelude::*;
use vstd::string::*;
use crate::address::{Address, AddressView};
use crate::helpers::{Api, api_url_of};
use crate::interface::{UpdatesParams, requested_kinds, requested_limit};
use crate::outside::opt_seq;

verus! {

/// What the bot process keeps between messages.
#[derive(Clone, Debug)]
pub struct State {
    pub tg_key: String,
    pub api_url: String,
    /// The id of the first update not seen yet.
    pub current_offset: u32,
    pub api: Option<Api>,
    /// The processes that receive every update, each once, in the order they subscribed.
    pub subscribers: Vec<Address>,
    /// The websocket channel that new chat messages are pushed to.
    pub our_channel_id: u32,
    /// The most updates a poll asks for, as registered.
    pub poll_limit: Option<u32>,
    /// The kinds of update a poll asks for, as registered; all kinds where `None`.
    pub allowed_updates: Option<Vec<frankenstein::AllowedUpdate>>,
}

pub struct StateView {
    pub tg_key: Seq<char>,
    pub api_url: Seq<char>,
    pub current_offset: u32,
    pub api: Option<Seq<char>>,
    pub subscribers: Seq<AddressView>,
    pub our_channel_id: u32,
    pub poll_limit: Option<u32>,
    pub allowed_updates: Option<Seq<frankenstein::AllowedUpdate>>,
}

pub open spec fn addresses_view(addrs: Seq<Address>) -> Seq<AddressView> {
    addrs.map_values(|a: Address| a@)
}

impl View for State {
    type V = StateView;

    open spec fn view(&self) -> StateView {
        StateView {
            tg_key: self.tg_key@,
            api_url: self.api_url@,
            current_offset: self.current_offset,
            api: match self.api {
                Some(a) => Some(a.api_url@),
                None => None,
            },
            subscribers: addresses_view(self.subscribers@),
            our_channel_id: self.our_channel_id,
            poll_limit: self.poll_limit,
            allowed_updates: opt_seq(self.allowed_updates),
        }
    }
}

/// The view of an optional state.
pub open spec fn state_view(s: Option<State>) -> Option<StateView> {
    match s {
        Some(s) => Some(s@),
        None => None,
    }
}

/// The list without its first occurrence of `a` (unchanged where `a` does not occur).
pub open spec fn remove_first(s: Seq<AddressView>, a: AddressView) -> Seq<AddressView>
    decreases s.len(),
{
    if s.len() == 0 {
        s
    } else if s[0] == a {
        s.drop_first()
    } else {
        seq![s[0]] + remove_first(s.drop_first(), a)
    }
}

impl StateView {
    /// Every subscriber occurs once; where there is a Bot API client, its
    /// address is the one of the registered key, and so is `api_url`.
    pub open spec fn well_formed(self) -> bool {
        &&& self.subscribers.no_duplicates()
        &&& self.api matches Some(url) ==> url == self.api_url && self.api_url == api_url_of(self.tg_key)
    }

    /// `a` is added at the end of the subscribers, unless it is one already.
    pub open spec fn subscribe(self, a: AddressView) -> StateView {
        if self.subscribers.contains(a) {
            self
        } else {
            StateView { subscribers: self.subscribers.push(a), ..self }
        }
    }

    /// The first occurrence of `a` among the subscribers is removed.
    pub open spec fn unsubscribe(self, a: AddressView) -> StateView {
        StateView { subscribers: remove_first(self.subscribers, a), ..self }
    }

    /// The key `token` is registered with polling parameters `params`: the
    /// API address follows the key, polling starts over, and every poll asks
    /// for the limit and the kinds of update that `params` name.
    pub open spec fn register(self, token: Seq<char>, params: Option<UpdatesParams>) -> StateView {
        StateView {
            tg_key: token,
            api_url: api_url_of(token),
            current_offset: 0,
            api: Some(api_url_of(token)),
            poll_limit: requested_limit(params),
            allowed_updates: requested_kinds(params),
            ..self
        }
    }

    pub open spec fn with_offset(self, offset: u32) -> StateView {
        StateView { current_offset: offset, ..self }
    }

    pub open spec fn with_channel(self, channel_id: u32) -> StateView {
        StateView { our_channel_id: channel_id, ..self }
    }
}

/// The state of a bot process that has never run: no key, no client, no subscribers.
pub open spec fn empty_state() -> StateView {
    StateView {
        tg_key: Seq::empty(),
        api_url: Seq::empty(),
        current_offset: 0,
        api: None,
        subscribers: Seq::empty(),
        our_channel_id: 0,
        poll_limit: None,
        allowed_updates: None,
    }
}

/// Where `a` first occurs at `i`, removing its first occurrence removes index `i`.
pub proof fn lemma_remove_first_at(s: Seq<AddressView>, a: AddressView, i: int)
    requires
        0 <= i < s.len(),
        s[i] == a,
        forall|j: int| 0 <= j < i ==> s[j] != a,
    ensures
        remove_first(s, a) == s.remove(i),
    decreases s.len(),
{
    if i == 0 {
        assert(s.drop_first() =~= s.remove(0));
    } else {
        lemma_remove_first_at(s.drop_first(), a, i - 1);
        assert(seq![s[0]] + s.drop_first().remove(i - 1) =~= s.remove(i));
    }
}

/// Where `a` does not occur, removing its first occurrence changes nothing.
pub proof fn lemma_remove_first_absent(s: Seq<AddressView>, a: AddressView)
    requires
        !s.contains(a),
    ensures
        remove_first(s, a) == s,
    decreases s.len(),
{
    if s.len() > 0 {
        assert(s[0] != a);
        assert forall|x: AddressView| s.drop_first().contains(x) implies s.contains(x) by {
            let k = choose|k: int| 0 <= k < s.drop_first().len() && s.drop_first()[k] == x;
            assert(s[k + 1] == x);
        }
        lemma_remove_first_absent(s.drop_first(), a);
        assert(seq![s[0]] + s.drop_first() =~= s);
    }
}

/// In a list without duplicates, removing the first occurrence of `a` leaves
/// a list without duplicates in which `a` does not occur.
pub proof fn lemma_remove_first_no_duplicates(s: Seq<AddressView>, a: AddressView)
    requires
        s.no_duplicates(),
    ensures
        remove_first(s, a).no_duplicates(),
        !remove_first(s, a).contains(a),
{
    if s.contains(a) {
        let i = choose|i: int| 0 <= i < s.len() && s[i] == a;
        assert forall|j: int| 0 <= j < i implies s[j] != a by {}
        lemma_remove_first_at(s, a, i);
        let r = s.remove(i);
        assert forall|x: int, y: int| 0 <= x < r.len() && 0 <= y < r.len() && x != y implies r[x] != r[y] by {
            let sx = if x < i { x } else { x + 1 };
            let sy = if y < i { y } else { y + 1 };
            assert(r[x] == s[sx] && r[y] == s[sy]);
        }
        if r.contains(a) {
            let k = choose|k: int| 0 <= k < r.len() && r[k] == a;
            let sk = if k < i { k } else { k + 1 };
            assert(s[sk] == a && sk != i);
        }
    } else {
        lemma_remove_first_absent(s, a);
    }
}

impl State {
    /// The state of a bot process that has never run.
    pub fn initialize_empty() -> (res: State)
        ensures
            res@ == empty_state(),
            res@.well_formed(),
    {
        let res = State {
            tg_key: String::new(),
            api_url: String::new(),
            current_offset: 0,
            api: None,
            subscribers: Vec::new(),
            our_channel_id: 0,
            poll_limit: None,
            allowed_updates: None,
        };
        assert(res@.subscribers =~= Seq::<AddressView>::empty());
        res
    }

    /// Whether `a` is among the subscribers.
    pub fn is_subscribed(&self, a: &Address) -> (res: bool)
        ensures
            res == self@.subscribers.contains(a@),
    {
        let n = self.subscribers.len();
        let mut i: usize = 0;
        while i < n
            invariant
                n == self.subscribers.len(),
                0 <= i <= n,
                forall|j: int| 0 <= j < i ==> self.subscribers@[j]@ != a@,
            decreases n - i,
        {
            if self.subscribers[i].same_as(a) {
                assert(self@.subscribers[i as int] == a@);
                return true;
            }
            i = i + 1;
        }
        assert forall|x: int| 0 <= x < self@.subscribers.len() implies self@.subscribers[x] != a@ by {
            assert(self@.subscribers[x] == self.subscribers@[x]@);
        }
        false
    }

    /// Adds `a` to the subscribers unless it is one already.
    pub fn subscribe(&mut self, a: &Address)
        ensures
            final(self)@ == old(self)@.subscribe(a@),
    {
        if !self.is_subscribed(a) {
            self.subscribers.push(a.duplicate());
            assert(addresses_view(self.subscribers@) =~= addresses_view(old(self).subscribers@).push(a@));
        }
    }

    /// Removes the first occurrence of `a` from the subscribers, if any.
    pub fn unsubscribe(&mut self, a: &Address)
        ensures
            final(self)@ == old(self)@.unsubscribe(a@),
    {
        let ghost s = self@.subscribers;
        let n = self.subscribers.len();
        let mut i: usize = 0;
        while i < n
            invariant
                n == self.subscribers.len(),
                s == self@.subscribers,
                *self == *old(self),
                0 <= i <= n,
                forall|j: int| 0 <= j < i ==> s[j] != a@,
            decreases n - i,
        {
            if self.subscribers[i].same_as(a) {
                proof {
                    lemma_remove_first_at(s, a@, i as int);
                }
                self.subscribers.remove(i);
                assert(addresses_view(self.subscribers@) =~= s.remove(i as int));
                return;
            }
            i = i + 1;
        }
        proof {
            assert forall|x: int| 0 <= x < s.len() implies s[x] != a@ by {}
            lemma_remove_first_absent(s, a@);
        }
        assert(self@ == old(self)@.unsubscribe(a@));
    }

    /// Registers the API key `token` with polling parameters `params`: the
    /// key, the API address and the client follow it, polling starts over
    /// from offset 0, and the requested limit and kinds of update are kept.
    pub fn register_api_key(&mut self, token: &str, params: Option<UpdatesParams>)
        ensures
            final(self)@ == old(self)@.register(token@, params),
    {
        let url = String::from_str("https://api.telegram.org/bot").concat(token);
        self.tg_key = String::from_str(token);
        self.api_url = url.clone();
        self.current_offset = 0;
        self.api = Some(Api { api_url: url });
        match params {
            Some(p) => {
                self.poll_limit = p.limit;
                self.allowed_updates = p.allowed_updates;
            },
            None => {
                self.poll_limit = None;
                self.allowed_updates = None;
            },
        }
    }

    /// Records the offset of the first update not seen yet.
    pub fn record_offset(&mut self, offset: u32)
        ensures
            final(self)@ == old(self)@.with_offset(offset),
    {
        self.current_offset = offset;
    }

    /// Records the websocket channel that chat messages are pushed to.
    pub fn record_channel(&mut self, channel_id: u32)
        ensures
            final(self)@ == old(self)@.with_channel(channel_id),
    {
        self.our_channel_id = channel_id;
    }
}

} // verus!
