//! Names, places and manifests for the apps that tests deploy.
use vstd::prelude::*;
use vstd::string::*;

verus! {

/// Longest app or package name, in bytes, that the backend takes.
pub const MAX_NAME_BYTES: usize = 50;

/// A lower-case hexadecimal digit.
pub open spec fn is_lower_hex(c: char) -> bool {
    ('0' <= c && c <= '9') || ('a' <= c && c <= 'f')
}

/// Positions of the hyphens in a hyphenated identifier.
pub open spec fn hyphen_at(i: int) -> bool {
    i == 8 || i == 13 || i == 18 || i == 23
}

/// A hyphenated identifier: 36 characters, hyphens at 8, 13, 18 and 23,
/// lower-case hexadecimal digits elsewhere.
pub open spec fn is_hyphenated_id(s: Seq<char>) -> bool {
    &&& s.len() == 36
    &&& forall|i: int|
        0 <= i < 36 ==> if hyphen_at(i) {
            s[i] == '-'
        } else {
            is_lower_hex(#[trigger] s[i])
        }
}

/// An app name cut from a hyphenated identifier: 24 characters, hyphens at
/// 7, 12, 17 and 22, lower-case hexadecimal digits elsewhere.
pub open spec fn is_random_app_name(s: Seq<char>) -> bool {
    &&& s.len() == 24
    &&& forall|i: int|
        0 <= i < 24 ==> if hyphen_at(i + 1) {
            s[i] == '-'
        } else {
            is_lower_hex(#[trigger] s[i])
        }
}

/// Relies on uuid::Uuid::new_v4 and its `Display`: a random identifier written
/// in the hyphenated lower-case form.
#[verifier::external_body]
fn new_identifier() -> (r: String)
    ensures
        is_hyphenated_id(r@),
{
    uuid::Uuid::new_v4().to_string()
}

/// The app name taken from the identifier `id`: its characters 1 to 24.
pub fn app_name_from_id(id: &str) -> (r: String)
    requires
        id@.len() >= 25,
    ensures
        r@ == id@.subrange(1, 25),
{
    id.substring_char(1, 25).to_owned()
}

/// A fresh random app name: characters 1 to 24 of a random identifier.
pub fn get_random_app_name() -> (r: String)
    ensures
        is_random_app_name(r@),
{
    let id = new_identifier();
    let r = app_name_from_id(id.as_str());
    assert forall|i: int| 0 <= i < 24 implies (if hyphen_at(i + 1) {
        r@[i] == '-'
    } else {
        is_lower_hex(#[trigger] r@[i])
    }) by {
        assert(r@[i] == id@[i + 1]);
    }
    r
}

/// `name` appended to the directory `root` as a path, the way a path join
/// does it on Unix: an absolute `name` replaces `root`; otherwise a `/` is put
/// between them unless `root` is empty or already ends with one.
pub open spec fn path_joined(root: Seq<char>, name: Seq<char>) -> Seq<char> {
    if name.len() > 0 && name[0] == '/' {
        name
    } else if root.len() == 0 || root.last() == '/' {
        root + name
    } else {
        root + "/"@ + name
    }
}

/// The directory of the test app `test_name` under `apps_root`. Names longer
/// than the backend takes are not given.
pub fn build_clean_test_app_dir(apps_root: &str, test_name: &str) -> (r: String)
    requires
        test_name.spec_bytes().len() <= MAX_NAME_BYTES,
    ensures
        r@ == path_joined(apps_root@, test_name@),
{
    let nl = test_name.unicode_len();
    if nl > 0 && test_name.get_char(0) == '/' {
        return test_name.to_owned();
    }
    let rl = apps_root.unicode_len();
    let mut dir = apps_root.to_owned();
    if rl > 0 && apps_root.get_char(rl - 1) != '/' {
        dir.append("/");
    }
    dir.append(test_name);
    dir
}

/// The public address of the app `name` of the integration-test owner under
/// `app_domain`.
pub fn app_url(name: &str, app_domain: &str) -> (r: String)
    ensures
        r@ == "https://"@ + name@ + "-wasmer-integration-tests."@ + app_domain@,
{
    let mut url = "https://".to_owned();
    url.append(name);
    url.append("-wasmer-integration-tests.");
    url.append(app_domain);
    url
}

/// The app manifest that runs the hello-world package under the name `name`.
pub fn hello_world_app_yaml(name: &str) -> (r: String)
    ensures
        r@ == "\nkind: wasmer.io/App.v0\nname: "@ + name@
            + "\nowner: wasmer-integration-tests\npackage: wasmer-integration-tests/hello-world\n    "@,
{
    let mut yaml = "\nkind: wasmer.io/App.v0\nname: ".to_owned();
    yaml.append(name);
    yaml.append("\nowner: wasmer-integration-tests\npackage: wasmer-integration-tests/hello-world\n    ");
    yaml
}

} // verus!
