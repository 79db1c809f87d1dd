use vstd::prelude::*;

verus! {

/// Spec-level image of the registry: strings as character sequences.
pub struct ConfigModel {
    pub admin: Seq<char>,
    pub whitelisted_nft_addrs: Seq<Seq<char>>,
}

/// Spec-level image of one staking record. Timestamps are whole seconds;
/// an `end_timestamp` of zero means unbonding has not been requested.
pub struct RecordModel {
    pub nft_addr: Seq<char>,
    pub token_id: Seq<char>,
    pub sender: Seq<char>,
    pub start_timestamp: u64,
    pub end_timestamp: u64,
    pub is_burned_by_admin: bool,
}

/// The registry: the admin identity and the allow-listed collection
/// addresses. The admin is set once at instantiation; the allow list is
/// mutated only through `execute_add_collection` and
/// `execute_remove_collection`.
#[derive(Debug, PartialEq)]
pub struct Config {
    pub admin: String,
    pub whitelisted_nft_addrs: Vec<String>,
}

impl DeepView for Config {
    type V = ConfigModel;

    open spec fn deep_view(&self) -> ConfigModel {
        ConfigModel {
            admin: self.admin@,
            whitelisted_nft_addrs: self.whitelisted_nft_addrs.deep_view(),
        }
    }
}

impl Clone for Config {
    fn clone(&self) -> (r: Config)
        ensures
            r.admin == self.admin,
            r.whitelisted_nft_addrs@ == self.whitelisted_nft_addrs@,
            r.deep_view() == self.deep_view(),
    {
        let r = Config {
            admin: self.admin.clone(),
            whitelisted_nft_addrs: clone_strings(&self.whitelisted_nft_addrs),
        };
        proof {
            assert(r.deep_view().whitelisted_nft_addrs =~= self.deep_view().whitelisted_nft_addrs);
        }
        r
    }
}

/// One staking record, created per deposited token. A depositor's records
/// form an append-only list; the position assigned at append time is the
/// durable identifier that later operations reference, and it is never
/// reused or compacted.
#[derive(Debug, PartialEq)]
pub struct Staking {
    /// Address of the collection the token came from.
    pub nft_addr: String,
    /// Identifier of the token within its collection.
    pub token_id: String,
    /// The depositor: the only identity allowed to unstake or claim.
    pub sender: String,
    /// Time of deposit, in seconds.
    pub start_timestamp: u64,
    /// Time after which a claim is permitted, in seconds; zero until
    /// unbonding is requested.
    pub end_timestamp: u64,
    /// True once the admin has seized the token; terminal for the depositor.
    pub is_burned_by_admin: bool,
}

impl DeepView for Staking {
    type V = RecordModel;

    open spec fn deep_view(&self) -> RecordModel {
        RecordModel {
            nft_addr: self.nft_addr@,
            token_id: self.token_id@,
            sender: self.sender@,
            start_timestamp: self.start_timestamp,
            end_timestamp: self.end_timestamp,
            is_burned_by_admin: self.is_burned_by_admin,
        }
    }
}

impl Clone for Staking {
    fn clone(&self) -> (r: Staking)
        ensures
            r == *self,
    {
        Staking {
            nft_addr: self.nft_addr.clone(),
            token_id: self.token_id.clone(),
            sender: self.sender.clone(),
            start_timestamp: self.start_timestamp,
            end_timestamp: self.end_timestamp,
            is_burned_by_admin: self.is_burned_by_admin,
        }
    }
}

/// Copies a list of strings element by element.
pub fn clone_strings(list: &Vec<String>) -> (r: Vec<String>)
    ensures
        r@ == list@,
{
    let mut out: Vec<String> = Vec::new();
    let mut i: usize = 0;
    while i < list.len()
        invariant
            i <= list.len(),
            out@ == list@.subrange(0, i as int),
        decreases list.len() - i,
    {
        out.push(list[i].clone());
        i += 1;
    }
    proof {
        assert(out@ =~= list@);
    }
    out
}

} // verus!
