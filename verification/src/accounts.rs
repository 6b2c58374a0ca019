//! The signed-in accounts: the list that is kept, which of its tokens are
//! due for renewal, and the addresses of the sign-in services.

use vstd::prelude::*;
use crate::consts::{MS_CLIENT_ID, REDIRECT_PORT};
use crate::text::{chars_of, concat2, concat3, decimal_digits, decimal_string, str_eq};

verus! {

/// A skin of a profile.
#[derive(Debug)]
pub struct MCSkin {
    pub id: String,
    pub state: String,
    pub url: String,
    pub variant: String,
    pub alias: Option<String>,
}

/// A cape of a profile.
#[derive(Debug)]
pub struct MCCape {
    pub id: String,
    pub state: String,
    pub url: String,
    pub alias: String,
}

/// The game profile of an account.
#[derive(Debug)]
pub struct MCProfile {
    pub id: String,
    pub name: String,
    pub skins: Vec<MCSkin>,
    pub capes: Vec<MCCape>,
}

/// The token of the identity provider. Times are seconds since the Unix
/// epoch.
#[derive(Debug)]
pub struct MSAResponse2 {
    pub token_type: String,
    pub expires_at: i64,
    pub scope: String,
    pub access_token: String,
    pub refresh_token: String,
    pub user_id: String,
}

/// One claim of a console token.
#[derive(Debug)]
pub struct XUI {
    pub uhs: String,
}

/// The claims of a console token.
#[derive(Debug)]
pub struct XBLDisplayClaims {
    pub xui: Vec<XUI>,
}

/// A console token, of either of the two stages.
#[derive(Debug)]
pub struct XBLResponse {
    pub issue_instant: i64,
    pub not_after: i64,
    pub token: String,
    pub display_claims: XBLDisplayClaims,
}

/// The token of the game services.
#[derive(Debug)]
pub struct MCResponse2 {
    pub username: String,
    pub access_token: String,
    pub expires_at: i64,
    pub token_type: String,
}

/// An account with the tokens of all stages.
#[derive(Debug)]
pub struct MCAccount {
    pub msa_response: MSAResponse2,
    pub xbl_response: XBLResponse,
    pub xsts_response: XBLResponse,
    pub mc_response: MCResponse2,
    pub mc_profile: MCProfile,
}

/// The accounts that are kept, and which of them is in use.
#[derive(Debug)]
pub struct Accounts {
    pub accounts: Vec<MCAccount>,
    pub selected_index: Option<u32>,
}

/// Which tokens of an account are to be renewed, from the innermost out.
#[derive(Debug, Clone, Copy, PartialEq, Eq, Structural)]
pub struct RefreshPlan {
    pub msa: bool,
    pub xbl: bool,
    pub xsts: bool,
    pub mc: bool,
}

/// A token is renewed where it has expired or renewal is forced, and the
/// token that is made from it is renewed too.
pub open spec fn refresh_plan(account: MCAccount, now: i64, force: bool) -> RefreshPlan {
    let mc = account.mc_response.expires_at < now || force;
    let xsts = mc && (account.xsts_response.not_after < now || force);
    let xbl = xsts && (account.xbl_response.not_after < now || force);
    let msa = xbl && (account.msa_response.expires_at < now || force);
    RefreshPlan { msa, xbl, xsts, mc }
}

/// The account in use: the one that the selected index names.
pub open spec fn active_index(accounts: Accounts) -> Option<int> {
    match accounts.selected_index {
        Some(index) => if index < accounts.accounts@.len() {
            Some(index as int)
        } else {
            None
        },
        None => None,
    }
}

/// Two skins with the same contents.
pub open spec fn same_skin(a: MCSkin, b: MCSkin) -> bool {
    &&& a.id@ == b.id@
    &&& a.state@ == b.state@
    &&& a.url@ == b.url@
    &&& a.variant@ == b.variant@
    &&& a.alias.deep_view() == b.alias.deep_view()
}

/// Two capes with the same contents.
pub open spec fn same_cape(a: MCCape, b: MCCape) -> bool {
    &&& a.id@ == b.id@
    &&& a.state@ == b.state@
    &&& a.url@ == b.url@
    &&& a.alias@ == b.alias@
}

/// Two profiles with the same contents.
pub open spec fn same_profile(a: MCProfile, b: MCProfile) -> bool {
    &&& a.id@ == b.id@
    &&& a.name@ == b.name@
    &&& a.skins@.len() == b.skins@.len()
    &&& forall|i: int| 0 <= i < a.skins@.len() ==> same_skin(#[trigger] a.skins@[i], b.skins@[i])
    &&& a.capes@.len() == b.capes@.len()
    &&& forall|i: int| 0 <= i < a.capes@.len() ==> same_cape(#[trigger] a.capes@[i], b.capes@[i])
}

/// Two console tokens with the same contents.
pub open spec fn same_console_token(a: XBLResponse, b: XBLResponse) -> bool {
    &&& a.issue_instant == b.issue_instant
    &&& a.not_after == b.not_after
    &&& a.token@ == b.token@
    &&& a.display_claims.xui@.len() == b.display_claims.xui@.len()
    &&& forall|i: int|
        0 <= i < a.display_claims.xui@.len() ==> (#[trigger] a.display_claims.xui@[i]).uhs@
            == b.display_claims.xui@[i].uhs@
}

/// Two accounts with the same contents.
pub open spec fn same_account(a: MCAccount, b: MCAccount) -> bool {
    &&& a.msa_response.token_type@ == b.msa_response.token_type@
    &&& a.msa_response.expires_at == b.msa_response.expires_at
    &&& a.msa_response.scope@ == b.msa_response.scope@
    &&& a.msa_response.access_token@ == b.msa_response.access_token@
    &&& a.msa_response.refresh_token@ == b.msa_response.refresh_token@
    &&& a.msa_response.user_id@ == b.msa_response.user_id@
    &&& same_console_token(a.xbl_response, b.xbl_response)
    &&& same_console_token(a.xsts_response, b.xsts_response)
    &&& a.mc_response.username@ == b.mc_response.username@
    &&& a.mc_response.access_token@ == b.mc_response.access_token@
    &&& a.mc_response.expires_at == b.mc_response.expires_at
    &&& a.mc_response.token_type@ == b.mc_response.token_type@
    &&& same_profile(a.mc_profile, b.mc_profile)
}

/// `index` is the first account with the contents of `account`.
pub open spec fn is_first_same(accounts: Seq<MCAccount>, account: MCAccount, index: int) -> bool {
    &&& 0 <= index < accounts.len()
    &&& same_account(accounts[index], account)
    &&& forall|j: int| 0 <= j < index ==> !same_account(#[trigger] accounts[j], account)
}

fn skins_equal(a: &Vec<MCSkin>, b: &Vec<MCSkin>) -> (same: bool)
    ensures
        same == (a@.len() == b@.len() && forall|i: int|
            0 <= i < a@.len() ==> same_skin(#[trigger] a@[i], b@[i])),
{
    if a.len() != b.len() {
        return false;
    }
    let mut i: usize = 0;
    while i < a.len()
        invariant
            i <= a.len(),
            a.len() == b.len(),
            forall|k: int| 0 <= k < i ==> same_skin(#[trigger] a@[k], b@[k]),
        decreases a.len() - i,
    {
        let alias = match (&a[i].alias, &b[i].alias) {
            (Some(x), Some(y)) => str_eq(x.as_str(), y.as_str()),
            (None, None) => true,
            _ => false,
        };
        if !(alias && str_eq(a[i].id.as_str(), b[i].id.as_str()) && str_eq(
            a[i].state.as_str(),
            b[i].state.as_str(),
        ) && str_eq(a[i].url.as_str(), b[i].url.as_str()) && str_eq(
            a[i].variant.as_str(),
            b[i].variant.as_str(),
        )) {
            assert(!same_skin(a@[i as int], b@[i as int]));
            return false;
        }
        i += 1;
    }
    true
}

fn capes_equal(a: &Vec<MCCape>, b: &Vec<MCCape>) -> (same: bool)
    ensures
        same == (a@.len() == b@.len() && forall|i: int|
            0 <= i < a@.len() ==> same_cape(#[trigger] a@[i], b@[i])),
{
    if a.len() != b.len() {
        return false;
    }
    let mut i: usize = 0;
    while i < a.len()
        invariant
            i <= a.len(),
            a.len() == b.len(),
            forall|k: int| 0 <= k < i ==> same_cape(#[trigger] a@[k], b@[k]),
        decreases a.len() - i,
    {
        if !(str_eq(a[i].id.as_str(), b[i].id.as_str()) && str_eq(
            a[i].state.as_str(),
            b[i].state.as_str(),
        ) && str_eq(a[i].url.as_str(), b[i].url.as_str()) && str_eq(
            a[i].alias.as_str(),
            b[i].alias.as_str(),
        )) {
            assert(!same_cape(a@[i as int], b@[i as int]));
            return false;
        }
        i += 1;
    }
    true
}

fn console_tokens_equal(a: &XBLResponse, b: &XBLResponse) -> (same: bool)
    ensures
        same == same_console_token(*a, *b),
{
    if a.issue_instant != b.issue_instant || a.not_after != b.not_after || !str_eq(
        a.token.as_str(),
        b.token.as_str(),
    ) || a.display_claims.xui.len() != b.display_claims.xui.len() {
        return false;
    }
    let mut i: usize = 0;
    while i < a.display_claims.xui.len()
        invariant
            i <= a.display_claims.xui.len(),
            a.display_claims.xui.len() == b.display_claims.xui.len(),
            forall|k: int|
                0 <= k < i ==> (#[trigger] a.display_claims.xui@[k]).uhs@
                    == b.display_claims.xui@[k].uhs@,
        decreases a.display_claims.xui.len() - i,
    {
        if !str_eq(a.display_claims.xui[i].uhs.as_str(), b.display_claims.xui[i].uhs.as_str()) {
            assert(a.display_claims.xui@[i as int].uhs@ != b.display_claims.xui@[i as int].uhs@);
            return false;
        }
        i += 1;
    }
    true
}

/// When a token that was issued at `now` for `expires_in` seconds expires.
pub open spec fn expiry_of(now: i64, expires_in: u32) -> i64 {
    if now + expires_in <= i64::MAX {
        (now + expires_in) as i64
    } else {
        i64::MAX
    }
}

/// Tells when a token that was issued at `now` for `expires_in` seconds
/// expires.
pub fn token_expiry(now: i64, expires_in: u32) -> (at: i64)
    ensures
        at == expiry_of(now, expires_in),
{
    let span: i64 = expires_in as i64;
    if now > i64::MAX - span {
        i64::MAX
    } else {
        now + span
    }
}

impl MCAccount {
    /// Tells whether two accounts have the same contents.
    pub fn same_as(&self, other: &MCAccount) -> (same: bool)
        ensures
            same == same_account(*self, *other),
    {
        str_eq(self.msa_response.token_type.as_str(), other.msa_response.token_type.as_str())
            && self.msa_response.expires_at == other.msa_response.expires_at && str_eq(
            self.msa_response.scope.as_str(),
            other.msa_response.scope.as_str(),
        ) && str_eq(
            self.msa_response.access_token.as_str(),
            other.msa_response.access_token.as_str(),
        ) && str_eq(
            self.msa_response.refresh_token.as_str(),
            other.msa_response.refresh_token.as_str(),
        ) && str_eq(self.msa_response.user_id.as_str(), other.msa_response.user_id.as_str())
            && console_tokens_equal(&self.xbl_response, &other.xbl_response)
            && console_tokens_equal(&self.xsts_response, &other.xsts_response) && str_eq(
            self.mc_response.username.as_str(),
            other.mc_response.username.as_str(),
        ) && str_eq(
            self.mc_response.access_token.as_str(),
            other.mc_response.access_token.as_str(),
        ) && self.mc_response.expires_at == other.mc_response.expires_at && str_eq(
            self.mc_response.token_type.as_str(),
            other.mc_response.token_type.as_str(),
        ) && str_eq(self.mc_profile.id.as_str(), other.mc_profile.id.as_str()) && str_eq(
            self.mc_profile.name.as_str(),
            other.mc_profile.name.as_str(),
        ) && skins_equal(&self.mc_profile.skins, &other.mc_profile.skins) && capes_equal(
            &self.mc_profile.capes,
            &other.mc_profile.capes,
        )
    }

    /// Decides which tokens are renewed at `now`.
    pub fn refresh(&self, now: i64, force: bool) -> (plan: RefreshPlan)
        ensures
            plan == refresh_plan(*self, now, force),
    {
        let mc = self.mc_response.expires_at < now || force;
        let xsts = mc && (self.xsts_response.not_after < now || force);
        let xbl = xsts && (self.xbl_response.not_after < now || force);
        let msa = xbl && (self.msa_response.expires_at < now || force);
        RefreshPlan { msa, xbl, xsts, mc }
    }
}

impl Accounts {
    /// The account in use, if one is selected and it is in the list.
    pub fn get_active_account(&self) -> (account: Option<&MCAccount>)
        ensures
            match account {
                Some(found) => active_index(*self) is Some && *found
                    == self.accounts@[active_index(*self)->0],
                None => active_index(*self) is None,
            },
    {
        match self.selected_index {
            Some(index) => {
                let i: usize = index as usize;
                if i < self.accounts.len() {
                    Some(&self.accounts[i])
                } else {
                    None
                }
            },
            None => None,
        }
    }

    /// Selects the account at `index`.
    pub fn set_selected_index(&mut self, index: u32)
        ensures
            final(self).accounts == old(self).accounts,
            final(self).selected_index == Some(index),
    {
        self.selected_index = Some(index);
    }

    /// Puts `account` at the end of the list and selects it.
    pub fn save_new_account(&mut self, account: MCAccount)
        ensures
            final(self).accounts@ == old(self).accounts@.push(account),
            final(self).selected_index == Some(
                crate::download::clamp_u32(old(self).accounts@.len() as int),
            ),
    {
        let at: usize = self.accounts.len();
        self.accounts.push(account);
        self.selected_index = Some(
            if at > u32::MAX as usize {
                u32::MAX
            } else {
                at as u32
            },
        );
    }

    /// Replaces the first account that has the contents of `account` by
    /// `new_data`; tells whether there was one.
    pub fn update_account(&mut self, account: &MCAccount, new_data: MCAccount) -> (replaced: bool)
        ensures
            final(self).selected_index == old(self).selected_index,
            replaced ==> exists|i: int|
                is_first_same(old(self).accounts@, *account, i) && final(self).accounts@ == old(
                    self,
                ).accounts@.update(i, new_data),
            !replaced ==> final(self).accounts@ == old(self).accounts@ && forall|j: int|
                0 <= j < old(self).accounts@.len() ==> !same_account(
                    #[trigger] old(self).accounts@[j],
                    *account,
                ),
    {
        let mut i: usize = 0;
        while i < self.accounts.len()
            invariant
                i <= self.accounts.len(),
                *self == *old(self),
                forall|j: int| 0 <= j < i ==> !same_account(#[trigger] self.accounts@[j], *account),
            decreases self.accounts.len() - i,
        {
            if self.accounts[i].same_as(account) {
                assert(is_first_same(old(self).accounts@, *account, i as int));
                self.accounts[i] = new_data;
                return true;
            }
            i += 1;
        }
        false
    }

    /// Takes the account at `index` out of the list.
    pub fn remove_account(&mut self, index: usize)
        requires
            index < old(self).accounts@.len(),
        ensures
            final(self).accounts@ == old(self).accounts@.remove(index as int),
            final(self).selected_index == old(self).selected_index,
    {
        self.accounts.remove(index);
    }
}

/// The address of the sign-in page.
pub open spec fn login_url() -> Seq<char> {
    "https://login.live.com/oauth20_authorize.srf?client_id="@ + MS_CLIENT_ID@
        + "&prompt=select_account&cobrandid=8058f65d-ce06-4c30-9559-473c9275a65d&response_type=code&scope=XboxLive.signin%20XboxLive.offline_access&redirect_uri=http%3A%2F%2F127.0.0.1%3A"@
        + decimal_digits(REDIRECT_PORT as nat)
}

/// The address of the sign-in page, with the port that the answer is
/// awaited on.
pub fn get_login_url() -> (url: String)
    ensures
        url@ == login_url(),
{
    let port = decimal_string(REDIRECT_PORT as u64);
    let head = concat3(
        "https://login.live.com/oauth20_authorize.srf?client_id=",
        MS_CLIENT_ID,
        "&prompt=select_account&cobrandid=8058f65d-ce06-4c30-9559-473c9275a65d&response_type=code&scope=XboxLive.signin%20XboxLive.offline_access&redirect_uri=http%3A%2F%2F127.0.0.1%3A",
    );
    concat2(head.as_str(), port.as_str())
}

/// The address that the answer of the sign-in page is sent to.
pub fn get_redirect_uri() -> (uri: String)
    ensures
        uri@ == "http://127.0.0.1:"@ + decimal_digits(REDIRECT_PORT as nat),
{
    let port = decimal_string(REDIRECT_PORT as u64);
    concat2("http://127.0.0.1:", port.as_str())
}

/// The address of the identity provider's token service.
pub fn get_msa_url() -> (url: String)
    ensures
        url@ == "https://login.live.com/oauth20_token.srf"@,
{
    "https://login.live.com/oauth20_token.srf".to_owned()
}

/// The address of the first console token service.
pub fn get_xbl_url() -> (url: String)
    ensures
        url@ == "https://user.auth.xboxlive.com/user/authenticate"@,
{
    "https://user.auth.xboxlive.com/user/authenticate".to_owned()
}

/// The address of the second console token service.
pub fn get_xsts_url() -> (url: String)
    ensures
        url@ == "https://xsts.auth.xboxlive.com/xsts/authorize"@,
{
    "https://xsts.auth.xboxlive.com/xsts/authorize".to_owned()
}

/// The address of the game services' sign-in.
pub fn get_mc_url() -> (url: String)
    ensures
        url@ == "https://api.minecraftservices.com/launcher/login"@,
{
    "https://api.minecraftservices.com/launcher/login".to_owned()
}

/// The address of the ownership service.
pub fn get_entitlements_url() -> (url: String)
    ensures
        url@ == "https://api.minecraftservices.com/entitlements/license"@,
{
    "https://api.minecraftservices.com/entitlements/license".to_owned()
}

/// The address of the profile service.
pub fn get_mc_profile_url() -> (url: String)
    ensures
        url@ == "https://api.minecraftservices.com/minecraft/profile"@,
{
    "https://api.minecraftservices.com/minecraft/profile".to_owned()
}

/// The address of one ownership request.
pub fn entitlements_request_url(request_id: &str) -> (url: String)
    ensures
        url@ == "https://api.minecraftservices.com/entitlements/license"@ + "?requestId="@
            + request_id@,
{
    let base = get_entitlements_url();
    concat3(base.as_str(), "?requestId=", request_id)
}

/// The header value that carries a bearer token.
pub fn bearer(access_token: &str) -> (header: String)
    ensures
        header@ == "Bearer "@ + access_token@,
{
    concat2("Bearer ", access_token)
}

/// A letter of the basic alphabet in lower case; any other character as
/// it is.
pub open spec fn ascii_lower(c: char) -> char {
    if 'A' <= c <= 'Z' {
        ((c as u8) + 32) as char
    } else {
        c
    }
}

/// `a` and `b` are the same but for the case of basic letters.
pub open spec fn same_ignoring_case(a: Seq<char>, b: Seq<char>) -> bool {
    a.map_values(|c: char| ascii_lower(c)) == b.map_values(|c: char| ascii_lower(c))
}

/// An entitlement that stands for the game.
pub open spec fn is_game_entitlement(name: Seq<char>) -> bool {
    same_ignoring_case(name, "product_minecraft"@) || same_ignoring_case(name, "game_minecraft"@)
}

fn lower(c: char) -> (l: char)
    ensures
        l == ascii_lower(c),
{
    if 'A' <= c && c <= 'Z' {
        ((c as u8) + 32) as char
    } else {
        c
    }
}

/// Tells whether two strings are the same but for the case of basic letters.
pub fn eq_ignore_ascii_case(a: &str, b: &str) -> (same: bool)
    ensures
        same == same_ignoring_case(a@, b@),
{
    let x = chars_of(a);
    let y = chars_of(b);
    let ghost fx = x@.map_values(|c: char| ascii_lower(c));
    let ghost fy = y@.map_values(|c: char| ascii_lower(c));
    if x.len() != y.len() {
        assert(fx.len() != fy.len());
        return false;
    }
    let mut i: usize = 0;
    while i < x.len()
        invariant
            i <= x.len(),
            x.len() == y.len(),
            x@ == a@,
            y@ == b@,
            fx == x@.map_values(|c: char| ascii_lower(c)),
            fy == y@.map_values(|c: char| ascii_lower(c)),
            forall|k: int| 0 <= k < i ==> fx[k] == fy[k],
        decreases x.len() - i,
    {
        if lower(x[i]) != lower(y[i]) {
            assert(fx[i as int] != fy[i as int]);
            return false;
        }
        i += 1;
    }
    assert(fx =~= fy);
    true
}

/// Tells whether one of the entitlements stands for the game.
pub fn has_mc_ownership(entitlements: &Vec<String>) -> (owned: bool)
    ensures
        owned == exists|i: int|
            0 <= i < entitlements.len() && is_game_entitlement(
                #[trigger] entitlements.deep_view()[i],
            ),
{
    let mut i: usize = 0;
    while i < entitlements.len()
        invariant
            i <= entitlements.len(),
            forall|k: int| 0 <= k < i ==> !is_game_entitlement(#[trigger] entitlements.deep_view()[k]),
        decreases entitlements.len() - i,
    {
        assert(entitlements.deep_view()[i as int] == entitlements[i as int]@);
        if eq_ignore_ascii_case(entitlements[i].as_str(), "product_minecraft")
            || eq_ignore_ascii_case(entitlements[i].as_str(), "game_minecraft") {
            return true;
        }
        i += 1;
    }
    false
}


/// Calls `uuid::Uuid::new_v4` and writes the identifier with its `Display`
/// impl. The identifier is drawn at random; nothing is known of it.
#[verifier::external_body]
fn new_request_id() -> String {
    uuid::Uuid::new_v4().to_string()
}

/// The address of an ownership request with an identifier of its own.
pub fn new_entitlements_request_url() -> (url: String)
    ensures
        exists|id: Seq<char>|
            url@ == "https://api.minecraftservices.com/entitlements/license"@ + "?requestId="@
                + id,
{
    let id = new_request_id();
    entitlements_request_url(id.as_str())
}

} // verus!
