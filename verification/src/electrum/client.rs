//! What a client has subscribed to.

use crate::electrum::error::{ElectrumRpcError, ElectrumRpcErrorView};
use crate::text;
use crate::text::text_eq;
use vstd::prelude::*;

verus! {

/// The state of one client: the tip that it was told of, and the status of each script that it has
/// subscribed to, by the text of its hash.
#[derive(Debug)]
pub struct Client<S> {
    tip: Option<String>,
    status: Vec<(String, S)>,
}

/// What a `Client` is.
pub struct ClientView<S> {
    pub tip: Option<Seq<char>>,
    pub status: Map<Seq<char>, S>,
}

impl<S> ClientView<S> {
    /// The client once it is subscribed to a script; a subscription that is there already stays as
    /// it is.
    pub open spec fn subscribed(self, scripthash: Seq<char>, status: S) -> ClientView<S> {
        if self.status.contains_key(scripthash) {
            self
        } else {
            ClientView { status: self.status.insert(scripthash, status), ..self }
        }
    }
}

/// Once a client is subscribed to a script, no later subscription, to that script or to another,
/// changes its status.
pub proof fn subscriptions_stay<S>(
    client: ClientView<S>,
    script: Seq<char>,
    scripthash: Seq<char>,
    status: S,
)
    requires
        client.status.contains_key(script),
    ensures
        client.subscribed(scripthash, status).status.contains_key(script),
        client.subscribed(scripthash, status).status[script] == client.status[script],
        client.subscribed(script, status) == client,
{
}

/// A script that a client was not subscribed to has, once it is, the status that was found out;
/// nothing else of the client changes.
pub proof fn subscription_takes_the_status<S>(
    client: ClientView<S>,
    script: Seq<char>,
    scripthash: Seq<char>,
    status: S,
)
    ensures
        client.subscribed(scripthash, status).status.contains_key(scripthash),
        !client.status.contains_key(scripthash) ==> client.subscribed(
            scripthash,
            status,
        ).status[scripthash] == status,
        script != scripthash ==> (client.subscribed(scripthash, status).status.contains_key(script)
            <==> client.status.contains_key(script)),
        client.subscribed(scripthash, status).tip == client.tip,
{
}

/// The statuses by their scripts; a later one replaces an earlier one.
pub open spec fn status_map<S>(status: Seq<(String, S)>) -> Map<Seq<char>, S>
    decreases status.len(),
{
    if status.len() == 0 {
        Map::empty()
    } else {
        status_map(status.drop_last()).insert(status.last().0@, status.last().1)
    }
}

/// No two entries are about one script.
pub open spec fn scripts_differ<S>(status: Seq<(String, S)>) -> bool {
    forall|i: int, j: int|
        #![trigger status[i], status[j]]
        0 <= i < j < status.len() ==> status[i].0@ != status[j].0@
}

proof fn status_in_map<S>(status: Seq<(String, S)>, i: int)
    requires
        scripts_differ(status),
        0 <= i < status.len(),
    ensures
        status_map(status).contains_key(status[i].0@),
        status_map(status)[status[i].0@] == status[i].1,
    decreases status.len(),
{
    let last = status.len() - 1;
    if i < last {
        let front = status.drop_last();
        assert(forall|j: int| #![trigger front[j]] 0 <= j < front.len() ==> front[j] == status[j]);
        status_in_map(front, i);
        assert(status[i].0@ != status[last].0@);
    }
}

proof fn script_not_in_map<S>(status: Seq<(String, S)>, script: Seq<char>)
    requires
        forall|i: int| #![trigger status[i]] 0 <= i < status.len() ==> status[i].0@ != script,
    ensures
        !status_map(status).contains_key(script),
    decreases status.len(),
{
    if status.len() > 0 {
        let front = status.drop_last();
        assert forall|i: int|
            #![trigger front[i]]
            0 <= i < front.len() implies front[i].0@ != script by {
            assert(front[i] == status[i]);
        }
        script_not_in_map(front, script);
        assert(status.last() == status[status.len() - 1]);
    }
}

impl<S> Client<S> {
    #[verifier::type_invariant]
    spec fn well_formed(self) -> bool {
        scripts_differ(self.status@)
    }

    /// What the client is.
    pub closed spec fn view(&self) -> ClientView<S> {
        ClientView {
            tip: text::text_option_view(self.tip),
            status: status_map(self.status@),
        }
    }

    /// The tip that the client was told of, if it has asked for it.
    pub fn tip(&self) -> (tip: Option<&String>)
        ensures
            match tip {
                Some(tip) => self@.tip == Some(tip@),
                None => self@.tip is None,
            },
    {
        match &self.tip {
            Some(tip) => Some(tip),
            None => None,
        }
    }

    /// Takes note of the tip that the client is told of.
    pub fn set_tip(&mut self, tip: String)
        ensures
            final(self)@ == (ClientView { tip: Some(tip@), ..old(self)@ }),
    {
        let mut status: Vec<(String, S)> = Vec::new();
        proof {
            use_type_invariant(&*self);
        }
        std::mem::swap(&mut status, &mut self.status);
        *self = Client { tip: Some(tip), status };
    }

    /// Finds the index of the entry about a script.
    fn find(&self, scripthash: &str) -> (index: Option<usize>)
        ensures
            match index {
                Some(index) => {
                    &&& index < self.status@.len()
                    &&& self.status@[index as int].0@ == scripthash@
                    &&& self@.status.contains_key(scripthash@)
                    &&& self@.status[scripthash@] == self.status@[index as int].1
                },
                None => {
                    &&& !self@.status.contains_key(scripthash@)
                    &&& forall|i: int|
                        #![trigger self.status@[i]]
                        0 <= i < self.status@.len() ==> self.status@[i].0@ != scripthash@
                },
            },
    {
        proof {
            use_type_invariant(&*self);
        }
        for i in 0..self.status.len()
            invariant
                scripts_differ(self.status@),
                forall|k: int|
                    #![trigger self.status@[k]]
                    0 <= k < i ==> self.status@[k].0@ != scripthash@,
        {
            if text_eq(self.status[i].0.as_str(), scripthash) {
                proof {
                    status_in_map(self.status@, i as int);
                }
                return Some(i);
            }
        }
        proof {
            script_not_in_map(self.status@, scripthash@);
        }
        None
    }

    /// The status of a script that the client has subscribed to; the history of a script is given
    /// to subscribers only.
    pub fn subscription(&self, scripthash: &str) -> (status: Result<&S, ElectrumRpcError>)
        ensures
            match status {
                Ok(status) => {
                    &&& self@.status.contains_key(scripthash@)
                    &&& self@.status[scripthash@] == *status
                },
                Err(error) => {
                    &&& !self@.status.contains_key(scripthash@)
                    &&& error@ == (ElectrumRpcErrorView::BadRequest {
                        message: "no subscription for scripthash"@,
                    })
                },
            },
    {
        match self.find(scripthash) {
            Some(index) => Ok(&self.status[index].1),
            None => Err(
                ElectrumRpcError::BadRequest {
                    message: "no subscription for scripthash".to_owned(),
                },
            ),
        }
    }

    /// The scripts that the client has subscribed to.
    pub fn scripts(&self) -> (scripts: Vec<String>)
        ensures
            forall|i: int|
                #![trigger scripts@[i]]
                0 <= i < scripts@.len() ==> self@.status.contains_key(scripts@[i]@),
            forall|i: int, j: int|
                #![trigger scripts@[i], scripts@[j]]
                0 <= i < j < scripts@.len() ==> scripts@[i]@ != scripts@[j]@,
            forall|script: Seq<char>| #[trigger]
                self@.status.contains_key(script) ==> exists|i: int|
                    #![trigger scripts@[i]]
                    0 <= i < scripts@.len() && scripts@[i]@ == script,
    {
        proof {
            use_type_invariant(&*self);
        }
        let mut scripts: Vec<String> = Vec::with_capacity(self.status.len());
        for i in 0..self.status.len()
            invariant
                scripts_differ(self.status@),
                scripts@.len() == i,
                forall|k: int|
                    #![trigger scripts@[k]]
                    0 <= k < i ==> scripts@[k]@ == self.status@[k].0@,
        {
            scripts.push(self.status[i].0.clone());
        }
        proof {
            assert forall|i: int| #![trigger scripts@[i]] 0 <= i < scripts@.len() implies
                self@.status.contains_key(scripts@[i]@) by {
                status_in_map(self.status@, i);
            }
            assert forall|script: Seq<char>| #[trigger]
                self@.status.contains_key(script) implies exists|i: int|
                    #![trigger scripts@[i]]
                    0 <= i < scripts@.len() && scripts@[i]@ == script by {
                if forall|i: int|
                    #![trigger self.status@[i]]
                    0 <= i < self.status@.len() ==> self.status@[i].0@ != script {
                    script_not_in_map(self.status@, script);
                } else {
                    let i = choose|i: int|
                        #![trigger self.status@[i]]
                        0 <= i < self.status@.len() && self.status@[i].0@ == script;
                    assert(scripts@[i]@ == script);
                }
            }
        }
        scripts
    }

    /// Subscribes the client to a script; a subscription that is there already stays as it is.
    pub fn subscribe(&mut self, scripthash: String, status: S)
        ensures
            final(self)@ == old(self)@.subscribed(scripthash@, status),
    {
        if self.find(scripthash.as_str()).is_some() {
            return;
        }
        let mut all: Vec<(String, S)> = Vec::new();
        proof {
            use_type_invariant(&*self);
        }
        std::mem::swap(&mut all, &mut self.status);
        let ghost before = all@;
        all.push((scripthash, status));
        proof {
            assert(all@.drop_last() =~= before);
            assert forall|i: int, j: int|
                #![trigger all@[i], all@[j]]
                0 <= i < j < all@.len() implies all@[i].0@ != all@[j].0@ by {
                assert(all@[i] == before[i]);
                if j < before.len() {
                    assert(all@[j] == before[j]);
                }
            }
        }
        self.status = all;
    }
}

impl<S> Default for Client<S> {
    /// A client that has asked for nothing.
    fn default() -> (client: Client<S>)
        ensures
            client@ == (ClientView::<S> { tip: None, status: Map::empty() }),
    {
        Client { tip: None, status: Vec::new() }
    }
}

} // verus!
