use vstd::prelude::*;
use crate::campaign::CrowdfundingContract;
use crate::error::CampaignError;
use crate::host::{
    directory_get,
    directory_len,
    directory_lines,
    directory_new,
    directory_push,
    sha256,
    sha256_digest,
    DirectoryVec,
};
use crate::model::{Campaign, MIN_GOAL};
use crate::principal::Principal;

verus! {

/// What the directory keeps of one campaign.
#[derive(Debug, PartialEq, Eq)]
pub struct CampaignInfo {
    pub id: u64,
    pub address: Principal,
    pub title: String,
    pub category: String,
    pub owner: Principal,
    pub created_at: u64,
}

/// What a directory entry says.
pub struct Listing {
    pub id: int,
    pub address: Seq<char>,
    pub title: Seq<char>,
    pub category: Seq<char>,
    pub owner: Seq<char>,
    pub created_at: int,
}

impl View for CampaignInfo {
    type V = Listing;

    open spec fn view(&self) -> Listing {
        Listing {
            id: self.id as int,
            address: self.address@,
            title: self.title@,
            category: self.category@,
            owner: self.owner@,
            created_at: self.created_at as int,
        }
    }
}

impl Clone for CampaignInfo {
    fn clone(&self) -> (copy: CampaignInfo)
        ensures
            copy@ == self@,
    {
        CampaignInfo {
            id: self.id,
            address: self.address.clone(),
            title: self.title.clone(),
            category: self.category.clone(),
            owner: self.owner.clone(),
            created_at: self.created_at,
        }
    }
}

/// What a sequence of directory entries says, entry by entry.
pub open spec fn listings(infos: Seq<CampaignInfo>) -> Seq<Listing> {
    infos.map_values(|info: CampaignInfo| info@)
}

/// Every entry of a directory carries its position as its identifier.
pub open spec fn numbered(directory: Seq<Listing>) -> bool {
    forall|i: int| 0 <= i < directory.len() ==> (#[trigger] directory[i]).id == i
}

/// The identifiers of the campaigns of one owner, in the order of their
/// creation.
pub open spec fn owned_by(directory: Seq<Listing>, owner: Seq<char>) -> Seq<int>
    decreases directory.len(),
{
    if directory.len() == 0 {
        Seq::empty()
    } else if directory.last().owner == owner {
        owned_by(directory.drop_last(), owner).push(directory.last().id)
    } else {
        owned_by(directory.drop_last(), owner)
    }
}

/// The identifiers as mathematical integers.
pub open spec fn as_ints(ids: Seq<u64>) -> Seq<int> {
    ids.map_values(|id: u64| id as int)
}

/// The eight bytes of a number, most significant byte first.
pub open spec fn be_bytes(n: u64) -> Seq<u8> {
    seq![
        (n / 0x0100_0000_0000_0000 % 256) as u8,
        (n / 0x0001_0000_0000_0000 % 256) as u8,
        (n / 0x0000_0100_0000_0000 % 256) as u8,
        (n / 0x0000_0001_0000_0000 % 256) as u8,
        (n / 0x0000_0000_0100_0000 % 256) as u8,
        (n / 0x0000_0000_0001_0000 % 256) as u8,
        (n / 0x0000_0000_0000_0100 % 256) as u8,
        (n % 256) as u8,
    ]
}

/// The eight bytes of a number, most significant byte first.
pub fn to_be_bytes(n: u64) -> (bytes: Vec<u8>)
    ensures
        bytes@ == be_bytes(n),
{
    let mut bytes: Vec<u8> = Vec::new();
    bytes.push((n / 0x0100_0000_0000_0000 % 256) as u8);
    bytes.push((n / 0x0001_0000_0000_0000 % 256) as u8);
    bytes.push((n / 0x0000_0100_0000_0000 % 256) as u8);
    bytes.push((n / 0x0000_0001_0000_0000 % 256) as u8);
    bytes.push((n / 0x0000_0000_0100_0000 % 256) as u8);
    bytes.push((n / 0x0000_0000_0001_0000 % 256) as u8);
    bytes.push((n / 0x0000_0000_0000_0100 % 256) as u8);
    bytes.push((n % 256) as u8);
    assert(bytes@ =~= be_bytes(n));
    bytes
}

/// What a stored directory entry says.
pub open spec fn listing_of(line: (int, Seq<char>, Seq<char>, Seq<char>, Seq<char>, int)) -> Listing {
    Listing {
        id: line.0,
        address: line.1,
        title: line.2,
        category: line.3,
        owner: line.4,
        created_at: line.5,
    }
}

/// The directory of all campaigns that were created through it. It only
/// grows, and it numbers the campaigns in the order of their creation,
/// starting at zero. It is kept in a vector of the hosting chain, which holds
/// up to `u32::MAX` entries.
#[derive(Debug)]
pub struct FactoryContract {
    campaigns: DirectoryVec,
}

impl View for FactoryContract {
    type V = Seq<Listing>;

    closed spec fn view(&self) -> Seq<Listing> {
        directory_lines(self.campaigns).map_values(
            |line: (int, Seq<char>, Seq<char>, Seq<char>, Seq<char>, int)| listing_of(line),
        )
    }
}

impl FactoryContract {
    /// The entries are numbered by their position.
    pub open spec fn wf(&self) -> bool {
        numbered(self@)
    }

    /// The directory without any campaign.
    pub fn new(env: &soroban_sdk::Env) -> (factory: FactoryContract)
        ensures
            factory.wf(),
            factory@ == Seq::<Listing>::empty(),
    {
        let factory = FactoryContract { campaigns: directory_new(env) };
        assert(factory@ =~= Seq::<Listing>::empty());
        factory
    }

    /// The directory that holds the given entries, where each carries its
    /// position as its identifier and they are few enough for it.
    pub fn from_campaigns(env: &soroban_sdk::Env, campaigns: Vec<CampaignInfo>) -> (factory: Option<
        FactoryContract,
    >)
        ensures
            factory is Some <==> numbered(listings(campaigns@)) && campaigns@.len() <= u32::MAX,
            factory matches Some(f) ==> f.wf() && f@ == listings(campaigns@),
    {
        if campaigns.len() as u128 > u32::MAX as u128 {
            return None;
        }
        let mut factory = FactoryContract::new(env);
        let mut i: usize = 0;
        while i < campaigns.len()
            invariant
                i <= campaigns@.len() <= u32::MAX,
                factory@ == listings(campaigns@.take(i as int)),
                forall|k: int| 0 <= k < i ==> (#[trigger] listings(campaigns@)[k]).id == k,
            decreases campaigns.len() - i,
        {
            if campaigns[i].id != i as u64 {
                assert(listings(campaigns@)[i as int].id != i);
                return None;
            }
            factory.append(&campaigns[i]);
            proof {
                assert(listings(campaigns@.take(i + 1)) =~= listings(campaigns@.take(i as int)).push(
                    campaigns@[i as int]@,
                ));
            }
            i += 1;
        }
        proof {
            assert(campaigns@.take(i as int) =~= campaigns@);
        }
        Some(factory)
    }

    fn count(&self) -> (count: u32)
        ensures
            count == self@.len(),
    {
        directory_len(&self.campaigns)
    }

    fn entry(&self, position: u32) -> (info: Option<CampaignInfo>)
        ensures
            info is Some <==> position < self@.len(),
            info matches Some(i) ==> i@ == self@[position as int],
    {
        match directory_get(&self.campaigns, position) {
            Some((id, address, title, category, owner, created_at)) => Some(
                CampaignInfo {
                    id,
                    address: Principal::new(address.as_str()),
                    title,
                    category,
                    owner: Principal::new(owner.as_str()),
                    created_at,
                },
            ),
            None => None,
        }
    }

    fn append(&mut self, info: &CampaignInfo)
        requires
            old(self)@.len() < u32::MAX,
        ensures
            final(self)@ == old(self)@.push(info@),
    {
        directory_push(
            &mut self.campaigns,
            info.id,
            info.address.key(),
            info.title.as_str(),
            info.category.as_str(),
            info.owner.key(),
            info.created_at,
        );
        proof {
            assert(self@ =~= old(self)@.push(info@));
        }
    }

    /// Why a campaign cannot be created with these values, if it cannot: the
    /// reasons for which a campaign cannot be opened with them.
    pub open spec fn create_error(goal: int, deadline: int, now: int, authorized: bool) -> Option<
        CampaignError,
    > {
        Campaign::initialize_error(goal, deadline, now, authorized)
    }

    /// Decides on the creation of a campaign before anything is deployed:
    /// the error with which it is turned away, or the identifier that the
    /// campaign will get.
    pub fn plan_campaign(&self, goal: i128, deadline: u64, now: u64, authorized: bool) -> (plan:
        Result<u64, CampaignError>)
        requires
            self.wf(),
        ensures
            match plan {
                Ok(id) => Self::create_error(goal as int, deadline as int, now as int, authorized)
                    is None && id == self@.len(),
                Err(e) => Self::create_error(goal as int, deadline as int, now as int, authorized)
                    == Some(e),
            },
    {
        if !authorized {
            return Err(CampaignError::Unauthorized);
        }
        if goal < MIN_GOAL {
            return Err(CampaignError::GoalTooLow);
        }
        if deadline <= now {
            return Err(CampaignError::DeadlineNotInFuture);
        }
        Ok(self.count() as u64)
    }

    /// The salt from which the address of the next campaign is derived: the
    /// SHA-256 digest of the identifier that the campaign will get, written
    /// as eight bytes, most significant byte first.
    pub fn deployment_salt(&self, env: &soroban_sdk::Env) -> (salt: [u8; 32])
        requires
            self.wf(),
        ensures
            salt@ == sha256_digest(be_bytes(self@.len() as u64)),
    {
        let id = self.count() as u64;
        let bytes = to_be_bytes(id);
        sha256(env, &bytes)
    }

    /// Creates a campaign at the time `now`: opens it as `initialize` does,
    /// enters it into the directory as deployed at `address`, and returns its
    /// identifier, the number of campaigns that were there before, with the
    /// opened campaign. A creation that is turned away changes nothing.
    pub fn create_campaign(
        &mut self,
        env: &soroban_sdk::Env,
        owner: &Principal,
        title: &str,
        description: &str,
        goal: i128,
        deadline: u64,
        category: &str,
        asset_token: &Principal,
        address: &Principal,
        now: u64,
        authorized: bool,
    ) -> (result: Result<(u64, CrowdfundingContract), CampaignError>)
        requires
            old(self).wf(),
            old(self)@.len() < u32::MAX,
        ensures
            final(self).wf(),
            match result {
                Ok((id, campaign)) => {
                    &&& Self::create_error(goal as int, deadline as int, now as int, authorized)
                        is None
                    &&& id == old(self)@.len()
                    &&& final(self)@ == old(self)@.push(
                        Listing {
                            id: id as int,
                            address: address@,
                            title: title@,
                            category: category@,
                            owner: owner@,
                            created_at: now as int,
                        },
                    )
                    &&& campaign.wf()
                    &&& campaign@ == Campaign::opened(
                        owner@,
                        title@,
                        description@,
                        goal as int,
                        deadline as int,
                        category@,
                        asset_token@,
                        now as int,
                    )
                },
                Err(e) => {
                    &&& Self::create_error(goal as int, deadline as int, now as int, authorized)
                        == Some(e)
                    &&& final(self)@ == old(self)@
                },
            },
    {
        let id = match self.plan_campaign(goal, deadline, now, authorized) {
            Ok(id) => id,
            Err(e) => {
                return Err(e);
            },
        };
        let mut campaign = CrowdfundingContract::new(env);
        if let Err(e) = campaign.initialize(
            owner,
            title,
            description,
            goal,
            deadline,
            category,
            asset_token,
            now,
            authorized,
        ) {
            return Err(e);
        }
        let info = CampaignInfo {
            id,
            address: address.clone(),
            title: title.to_owned(),
            category: category.to_owned(),
            owner: owner.clone(),
            created_at: now,
        };
        self.append(&info);
        Ok((id, campaign))
    }

    /// The address of the campaign with the given identifier, if there is one.
    pub fn get_campaign(&self, id: u64) -> (address: Option<Principal>)
        ensures
            address is Some <==> id < self@.len(),
            address matches Some(a) ==> a@ == self@[id as int].address,
    {
        if id >= self.count() as u64 {
            return None;
        }
        match self.entry(id as u32) {
            Some(info) => Some(info.address),
            None => None,
        }
    }

    /// All campaigns, in the order of their creation.
    pub fn get_all_campaigns(&self) -> (all: Vec<CampaignInfo>)
        ensures
            listings(all@) == self@,
    {
        let count = self.count();
        let mut all: Vec<CampaignInfo> = Vec::new();
        let mut i: u32 = 0;
        while i < count
            invariant
                i <= count == self@.len(),
                all@.len() == i,
                forall|k: int| 0 <= k < i ==> (#[trigger] all@[k])@ == self@[k],
            decreases count - i,
        {
            match self.entry(i) {
                Some(info) => {
                    all.push(info);
                },
                None => {},
            }
            i += 1;
        }
        assert(listings(all@) =~= self@);
        all
    }

    /// The identifiers of the campaigns of one owner, in the order of their
    /// creation.
    pub fn get_campaigns_by_owner(&self, owner: &Principal) -> (ids: Vec<u64>)
        ensures
            as_ints(ids@) == owned_by(self@, owner@),
    {
        let count = self.count();
        let mut ids: Vec<u64> = Vec::new();
        let mut i: u32 = 0;
        while i < count
            invariant
                i <= count == self@.len(),
                as_ints(ids@) == owned_by(self@.take(i as int), owner@),
            decreases count - i,
        {
            proof {
                let upto = self@.take(i + 1);
                assert(upto.drop_last() =~= self@.take(i as int));
                assert(upto.last() == self@[i as int]);
            }
            match self.entry(i) {
                Some(info) => {
                    if info.owner.same_as(owner) {
                        ids.push(info.id);
                        proof {
                            assert(as_ints(ids@) =~= owned_by(self@.take(i as int), owner@).push(
                                info.id as int,
                            ));
                        }
                    }
                },
                None => {},
            }
            i += 1;
        }
        proof {
            assert(self@.take(i as int) =~= self@);
        }
        ids
    }

    /// The number of campaigns that were created.
    pub fn get_campaign_count(&self) -> (count: u64)
        ensures
            count == self@.len(),
    {
        self.count() as u64
    }
}

} // verus!
