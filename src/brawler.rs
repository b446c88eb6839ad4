use vstd::prelude::*;

use crate::brawler_store::{username_taken, BrawlerStore, MAX_BRAWLERS};
use crate::error::MissionError;

verus! {

/// Registration input.
#[derive(Debug)]
pub struct RegisterBrawlerModel {
    pub username: String,
    pub password: String,
    pub display_name: String,
}

/// The brawler record to insert at registration.
#[derive(Debug)]
pub struct RegisterBrawlerEntity {
    pub username: String,
    pub password: String,
    pub display_name: String,
}

impl RegisterBrawlerModel {
    pub fn to_entity(&self) -> (r: RegisterBrawlerEntity)
        ensures
            r.username == self.username,
            r.password == self.password,
            r.display_name == self.display_name,
    {
        RegisterBrawlerEntity {
            username: self.username.clone(),
            password: self.password.clone(),
            display_name: self.display_name.clone(),
        }
    }
}

/// A stored brawler record.
#[derive(Debug)]
pub struct BrawlerEntity {
    pub id: i32,
    pub username: String,
    pub password: String,
    pub display_name: String,
    pub avatar_url: Option<String>,
    pub avatar_public_id: Option<String>,
}

/// One crew member as listed in a mission's roster.
#[derive(Debug)]
pub struct BrawlerModel {
    pub display_name: String,
    pub avatar_url: String,
    pub mission_success_count: i32,
    pub mission_join_count: i32,
}

/// Where an uploaded image ended up.
#[derive(Debug)]
pub struct UploadedImg {
    pub url: String,
    pub public_id: String,
}

impl UploadedImg {
    pub fn new(url: String, public_id: String) -> (r: UploadedImg)
        ensures
            r.url == url,
            r.public_id == public_id,
    {
        UploadedImg { url, public_id }
    }
}

/// An image to upload, base64 encoded.
#[derive(Debug)]
pub struct UploadBase64Img {
    pub base64_string: String,
}

/// Options handed to the image host with an upload.
#[derive(Debug)]
pub struct UploadImageOptions {
    pub folder: Option<String>,
    pub public_id: Option<String>,
    pub transformation: Option<String>,
}

/// What a client receives after registering or logging in.
#[derive(Debug)]
pub struct Passport {
    pub token: String,
    pub display_name: String,
    pub avatar_url: Option<String>,
}

/// The claims encoded in a session token: subject, expiry and issue time in
/// seconds since the Unix epoch.
#[derive(Debug)]
pub struct Claims {
    pub sub: String,
    pub exp: usize,
    pub iat: usize,
}

/// Seconds in a day.
pub const SECONDS_PER_DAY: i64 = 86400;

/// Decimal digits of a natural number, without leading zeros.
pub open spec fn digits_text(n: nat) -> Seq<char>
    decreases n,
{
    if n < 10 {
        seq![(n + '0' as int) as char]
    } else {
        digits_text(n / 10) + seq![((n % 10) + '0' as int) as char]
    }
}

/// Decimal text of an integer, with a leading `-` when it is negative.
pub open spec fn decimal_text(i: int) -> Seq<char> {
    if i < 0 {
        seq!['-'] + digits_text((-i) as nat)
    } else {
        digits_text(i as nat)
    }
}

/// The one-character text of a decimal digit.
fn digit_str(d: u64) -> (r: &'static str)
    requires
        d < 10,
    ensures
        r@ == seq![(d + '0' as int) as char],
{
    match d {
        0 => {
            proof {
                reveal_strlit("0");
            }
            "0"
        },
        1 => {
            proof {
                reveal_strlit("1");
            }
            "1"
        },
        2 => {
            proof {
                reveal_strlit("2");
            }
            "2"
        },
        3 => {
            proof {
                reveal_strlit("3");
            }
            "3"
        },
        4 => {
            proof {
                reveal_strlit("4");
            }
            "4"
        },
        5 => {
            proof {
                reveal_strlit("5");
            }
            "5"
        },
        6 => {
            proof {
                reveal_strlit("6");
            }
            "6"
        },
        7 => {
            proof {
                reveal_strlit("7");
            }
            "7"
        },
        8 => {
            proof {
                reveal_strlit("8");
            }
            "8"
        },
        _ => {
            proof {
                reveal_strlit("9");
            }
            "9"
        },
    }
}

/// Decimal text of an integer, with a leading `-` when it is negative.
pub fn i32_text(i: i32) -> (r: String)
    ensures
        r@ == decimal_text(i as int),
{
    let negative = i < 0;
    let n: u64 = if negative {
        (-(i as i64)) as u64
    } else {
        i as u64
    };
    let mut m: u64 = n;
    let mut out = String::new();
    loop
        invariant_except_break
            m > 0 || n == 0,
            n == 0 ==> m == 0 && out@.len() == 0,
            digits_text(n as nat) == digits_text(m as nat) + out@,
        ensures
            digits_text(n as nat) == out@,
        decreases m,
    {
        let d = m % 10;
        let prefix = String::from_str(digit_str(d));
        proof {
            if m < 10 {
                assert(digits_text(m as nat) == seq![(m + '0' as int) as char]);
                assert(digits_text(n as nat) =~= seq![(m + '0' as int) as char] + out@);
            } else {
                assert(digits_text(m as nat) == digits_text((m / 10) as nat) + seq![
                    ((m % 10) + '0' as int) as char,
                ]);
                assert(digits_text(n as nat) =~= digits_text((m / 10) as nat) + (seq![
                    ((m % 10) + '0' as int) as char,
                ] + out@));
            }
        }
        out = prefix.concat(out.as_str());
        m = m / 10;
        if m == 0 {
            break;
        }
    }
    if negative {
        let sign = String::from_str("-");
        proof {
            reveal_strlit("-");
        }
        sign.concat(out.as_str())
    } else {
        out
    }
}

/// Expiry of a token issued at `now` that lives `ttl_days` days.
pub open spec fn expiry_of(now: int, ttl_days: int) -> int {
    now + ttl_days * SECONDS_PER_DAY
}

/// Both stamps of a token fit the claim fields.
pub open spec fn claims_representable(now: int, ttl_days: int) -> bool {
    &&& 0 <= now <= usize::MAX
    &&& 0 <= expiry_of(now, ttl_days) <= usize::MAX
    &&& i64::MIN <= ttl_days * SECONDS_PER_DAY <= i64::MAX
    &&& i64::MIN <= expiry_of(now, ttl_days) <= i64::MAX
}

impl Claims {
    /// Claims for `user_id` issued at `now` (seconds since the epoch), expiring
    /// `ttl_days` days later; `None` when a stamp does not fit.
    pub fn new(user_id: i32, now: i64, ttl_days: i64) -> (r: Option<Claims>)
        ensures
            r is Some <==> claims_representable(now as int, ttl_days as int),
            r matches Some(c) ==> {
                &&& c.sub@ == decimal_text(user_id as int)
                &&& c.iat == now
                &&& c.exp == expiry_of(now as int, ttl_days as int)
            },
    {
        if now < 0 || ttl_days > i64::MAX / SECONDS_PER_DAY || ttl_days < i64::MIN / SECONDS_PER_DAY {
            return None;
        }
        let ttl = ttl_days * SECONDS_PER_DAY;
        if ttl > 0 && now > i64::MAX - ttl {
            return None;
        }
        let exp = now + ttl;
        if exp < 0 {
            return None;
        }
        if now as u64 > usize::MAX as u64 || exp as u64 > usize::MAX as u64 {
            return None;
        }
        Some(Claims { sub: i32_text(user_id), exp: exp as usize, iat: now as usize })
    }
}

/// Registration and avatar upload: the parts computed before and after the
/// password hasher, the store and the image host.
pub struct BrawlersUseCase {}

impl BrawlersUseCase {
    pub fn new() -> (r: BrawlersUseCase) {
        BrawlersUseCase {}
    }

    /// The record to insert: the input with its password replaced by its hash.
    pub fn register_entity(&self, model: &RegisterBrawlerModel, hashed_password: String) -> (r:
        RegisterBrawlerEntity)
        ensures
            r.username == model.username,
            r.password == hashed_password,
            r.display_name == model.display_name,
    {
        let mut entity = model.to_entity();
        entity.password = hashed_password;
        entity
    }

    /// Registers a brawler whose password was hashed by the caller; a taken
    /// username is a `Conflict`.
    pub fn register(&self, store: &mut BrawlerStore, model: &RegisterBrawlerModel, hashed_password: String) -> (r:
        Result<i32, MissionError>)
        requires
            old(store).wf(),
        ensures
            final(store).wf(),
            match r {
                Ok(id) => {
                    &&& !username_taken(old(store).brawlers(), model.username@)
                    &&& id == old(store).brawlers().len() + 1
                    &&& final(store).brawlers() == old(store).brawlers().push(
                        BrawlerEntity {
                            id,
                            username: model.username,
                            password: hashed_password,
                            display_name: model.display_name,
                            avatar_url: None,
                            avatar_public_id: None,
                        },
                    )
                },
                Err(e) => final(store).brawlers() == old(store).brawlers() && if username_taken(
                    old(store).brawlers(),
                    model.username@,
                ) {
                    e == MissionError::Conflict
                } else {
                    e == MissionError::Unavailable && old(store).brawlers().len() == MAX_BRAWLERS
                },
            },
    {
        let entity = self.register_entity(model, hashed_password);
        store.register(entity)
    }

    /// Upload options for a brawler's avatar: the avatar folder, the brawler's
    /// id as public id, scaled to 256 pixels wide.
    pub fn avatar_options(&self, user_id: i32) -> (r: UploadImageOptions)
        ensures
            r.folder matches Some(f) && f@ == "avatar"@,
            r.public_id matches Some(p) && p@ == decimal_text(user_id as int),
            r.transformation matches Some(t) && t@ == "c_scale,w_256"@,
    {
        UploadImageOptions {
            folder: Some(String::from_str("avatar")),
            public_id: Some(i32_text(user_id)),
            transformation: Some(String::from_str("c_scale,w_256")),
        }
    }
}

} // verus!
