use vstd::prelude::*;

use crate::brawler::{BrawlerEntity, RegisterBrawlerEntity, UploadedImg};
use crate::error::MissionError;
use crate::mission::clone_opt_string;
use crate::text::text_eq;

verus! {

/// Most brawlers a store holds, so that every id fits in an `i32`.
pub const MAX_BRAWLERS: usize = 2147483646;

/// Some record of `bs` has this username.
pub open spec fn username_taken(bs: Seq<BrawlerEntity>, username: Seq<char>) -> bool {
    exists|i: int| 0 <= i < bs.len() && #[trigger] bs[i].username@ == username
}

/// The brawler with id `id`; the store keeps the brawler with id `k` at
/// position `k - 1`.
pub open spec fn brawler_with_id(bs: Seq<BrawlerEntity>, id: i32) -> Option<BrawlerEntity> {
    if 1 <= id <= bs.len() {
        Some(bs[id - 1])
    } else {
        None
    }
}

/// In-memory brawler store with unique usernames.
pub struct BrawlerStore {
    brawlers: Vec<BrawlerEntity>,
}

pub(crate) fn duplicate_brawler(b: &BrawlerEntity) -> (r: BrawlerEntity)
    ensures
        r == *b,
{
    BrawlerEntity {
        id: b.id,
        username: b.username.clone(),
        password: b.password.clone(),
        display_name: b.display_name.clone(),
        avatar_url: clone_opt_string(&b.avatar_url),
        avatar_public_id: clone_opt_string(&b.avatar_public_id),
    }
}

impl BrawlerStore {
    pub closed spec fn brawlers(&self) -> Seq<BrawlerEntity> {
        self.brawlers@
    }

    /// Ids follow positions and usernames are unique.
    pub open spec fn wf(&self) -> bool {
        &&& forall|i: int| 0 <= i < self.brawlers().len() ==> #[trigger] self.brawlers()[i].id == i + 1
        &&& forall|i: int, j: int|
            0 <= i < j < self.brawlers().len() ==> self.brawlers()[i].username@
                != self.brawlers()[j].username@
        &&& self.brawlers().len() <= MAX_BRAWLERS
    }

    pub fn new() -> (r: BrawlerStore)
        ensures
            r.wf(),
            r.brawlers() == Seq::<BrawlerEntity>::empty(),
    {
        BrawlerStore { brawlers: Vec::new() }
    }

    /// Position of the brawler with this username.
    fn position_of(&self, username: &str) -> (r: Option<usize>)
        ensures
            match r {
                Some(i) => i < self.brawlers().len() && self.brawlers()[i as int].username@
                    == username@,
                None => !username_taken(self.brawlers(), username@),
            },
    {
        let mut i: usize = 0;
        while i < self.brawlers.len()
            invariant
                i <= self.brawlers@.len(),
                forall|j: int| 0 <= j < i ==> self.brawlers@[j].username@ != username@,
            decreases self.brawlers@.len() - i,
        {
            if text_eq(self.brawlers[i].username.as_str(), username) {
                return Some(i);
            }
            i += 1;
        }
        None
    }

    /// Inserts a brawler under the next id; a taken username is a `Conflict`.
    pub fn register(&mut self, entity: RegisterBrawlerEntity) -> (r: Result<i32, MissionError>)
        requires
            old(self).wf(),
        ensures
            final(self).wf(),
            match r {
                Ok(id) => {
                    &&& !username_taken(old(self).brawlers(), entity.username@)
                    &&& id == old(self).brawlers().len() + 1
                    &&& final(self).brawlers() == old(self).brawlers().push(
                        BrawlerEntity {
                            id,
                            username: entity.username,
                            password: entity.password,
                            display_name: entity.display_name,
                            avatar_url: None,
                            avatar_public_id: None,
                        },
                    )
                },
                Err(e) => final(self).brawlers() == old(self).brawlers() && if username_taken(
                    old(self).brawlers(),
                    entity.username@,
                ) {
                    e == MissionError::Conflict
                } else {
                    e == MissionError::Unavailable && old(self).brawlers().len() == MAX_BRAWLERS
                },
            },
    {
        if self.position_of(entity.username.as_str()).is_some() {
            return Err(MissionError::Conflict);
        }
        let n = self.brawlers.len();
        if n >= MAX_BRAWLERS {
            return Err(MissionError::Unavailable);
        }
        let id = (n + 1) as i32;
        self.brawlers.push(
            BrawlerEntity {
                id,
                username: entity.username,
                password: entity.password,
                display_name: entity.display_name,
                avatar_url: None,
                avatar_public_id: None,
            },
        );
        Ok(id)
    }

    /// The brawler registered under this username.
    pub fn find_by_username(&self, username: &str) -> (r: Result<BrawlerEntity, MissionError>)
        requires
            self.wf(),
        ensures
            match r {
                Ok(b) => self.brawlers().contains(b) && b.username@ == username@,
                Err(e) => e == MissionError::NotFound && !username_taken(self.brawlers(), username@),
            },
    {
        match self.position_of(username) {
            Some(i) => Ok(duplicate_brawler(&self.brawlers[i])),
            None => Err(MissionError::NotFound),
        }
    }

    /// The brawler with this id.
    pub fn get(&self, id: i32) -> (r: Option<&BrawlerEntity>)
        requires
            self.wf(),
        ensures
            match brawler_with_id(self.brawlers(), id) {
                Some(b) => r == Some(&b),
                None => r is None,
            },
    {
        if id < 1 || id as usize > self.brawlers.len() {
            None
        } else {
            Some(&self.brawlers[(id - 1) as usize])
        }
    }

    /// Records an uploaded avatar for a brawler; an unknown id changes nothing.
    pub fn upload_base64img(&mut self, user_id: i32, img: &UploadedImg)
        requires
            old(self).wf(),
        ensures
            final(self).wf(),
            match brawler_with_id(old(self).brawlers(), user_id) {
                None => final(self).brawlers() == old(self).brawlers(),
                Some(b) => final(self).brawlers() == old(self).brawlers().update(
                    user_id - 1,
                    BrawlerEntity {
                        avatar_url: Some(img.url),
                        avatar_public_id: Some(img.public_id),
                        ..b
                    },
                ),
            },
    {
        if user_id < 1 || user_id as usize > self.brawlers.len() {
            return;
        }
        let idx = (user_id - 1) as usize;
        let cur = duplicate_brawler(&self.brawlers[idx]);
        let b = BrawlerEntity {
            avatar_url: Some(img.url.clone()),
            avatar_public_id: Some(img.public_id.clone()),
            ..cur
        };
        self.brawlers.set(idx, b);
    }
}

} // verus!
