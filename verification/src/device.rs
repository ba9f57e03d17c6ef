use vstd::prelude::*;

verus! {

/// A registered device: its connection token, display name and owning user.
pub struct Device {
    pub token: String,
    pub name: String,
    pub owner: String,
}

/// The owner of the first device in `devices` whose token is `token`;
/// the empty text when no device carries that token.
pub open spec fn owner_for(devices: Seq<Device>, token: Seq<char>) -> Seq<char>
    decreases devices.len(),
{
    if devices.len() == 0 {
        Seq::empty()
    } else if devices[0].token@ == token {
        devices[0].owner@
    } else {
        owner_for(devices.drop_first(), token)
    }
}

/// The lookup answers with the first match: when device `i` carries `token`
/// and no earlier device does, the owner found is device `i`'s; when no
/// device carries it, the owner found is empty.
pub proof fn law_owner_is_first_match(devices: Seq<Device>, token: Seq<char>)
    ensures
        forall|i: int|
            0 <= i < devices.len() && devices[i].token@ == token && (forall|j: int|
                0 <= j < i ==> #[trigger] devices[j].token@ != token) ==> owner_for(devices, token)
                == #[trigger] devices[i].owner@,
        (forall|j: int| 0 <= j < devices.len() ==> #[trigger] devices[j].token@ != token)
            ==> owner_for(devices, token) == Seq::<char>::empty(),
    decreases devices.len(),
{
    if devices.len() > 0 {
        let rest = devices.drop_first();
        law_owner_is_first_match(rest, token);
        assert forall|i: int|
            0 <= i < devices.len() && devices[i].token@ == token && (forall|j: int|
                0 <= j < i ==> #[trigger] devices[j].token@ != token) implies owner_for(devices, token)
            == #[trigger] devices[i].owner@ by {
            if i > 0 {
                assert(devices[0].token@ != token);
                assert(rest[i - 1] == devices[i]);
                assert forall|j: int| 0 <= j < i - 1 implies #[trigger] rest[j].token@ != token by {
                    assert(rest[j] == devices[j + 1]);
                }
            }
        }
        if forall|j: int| 0 <= j < devices.len() ==> #[trigger] devices[j].token@ != token {
            assert(devices[0].token@ != token);
            assert forall|j: int| 0 <= j < rest.len() implies #[trigger] rest[j].token@ != token by {
                assert(rest[j] == devices[j + 1]);
            }
        }
    }
}

impl Device {
    /// Looks `token` up in the device list and returns the owner of the first
    /// device that carries it, or an empty string when none does.
    pub fn get_owner_by_token(devices: &Vec<Device>, token: &str) -> (owner: String)
        ensures
            owner@ == owner_for(devices@, token@),
    {
        let wanted: String = token.to_owned();
        let mut i: usize = 0;
        assert(devices@.skip(0) =~= devices@);
        while i < devices.len()
            invariant
                i <= devices@.len(),
                wanted@ == token@,
                owner_for(devices@, token@) == owner_for(devices@.skip(i as int), token@),
            decreases devices@.len() - i,
        {
            assert(devices@.skip(i as int).drop_first() =~= devices@.skip(i + 1));
            if devices[i].token == wanted {
                return devices[i].owner.clone();
            }
            i = i + 1;
        }
        String::new()
    }
}

} // verus!
