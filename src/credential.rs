use vstd::prelude::*;
use vstd::string::StringExecFns;

verus! {

/// Which credentials a git operation offers when the remote asks for some.
#[derive(Clone, Copy, Debug, PartialEq, Eq, Structural)]
pub enum CredentialPolicy {
    /// The default SSH key pair when the remote accepts key authentication,
    /// the transport's default credentials otherwise.
    SshKeyThenDefault,
    /// The transport's default credentials only.
    DefaultOnly,
}

/// The credentials to offer.
#[derive(Clone, Debug, PartialEq, Eq)]
pub enum Credential {
    /// The key pair under `home`'s `ssh_key_dir`, files `private_key_file` and
    /// `public_key_file`, for `username`.
    SshKey { username: String, home: String },
    /// The transport's default mechanism.
    Default,
}

/// Why no credentials could be offered.
#[derive(Clone, Copy, Debug, PartialEq, Eq, Structural)]
pub enum CredentialError {
    /// Key authentication was asked for and the home directory is unknown.
    NoHomeDirectory,
}

/// The user name offered with a key when the URL names none.
pub fn default_username() -> (r: &'static str)
    ensures
        r@ == "git"@,
{
    "git"
}

/// The directory, under the home directory, that holds the key pair.
pub fn ssh_key_dir() -> (r: &'static str)
    ensures
        r@ == ".ssh"@,
{
    ".ssh"
}

/// The file name of the private key.
pub fn private_key_file() -> (r: &'static str)
    ensures
        r@ == "id_rsa"@,
{
    "id_rsa"
}

/// The file name of the public key.
pub fn public_key_file() -> (r: &'static str)
    ensures
        r@ == "id_rsa.pub"@,
{
    "id_rsa.pub"
}

impl CredentialPolicy {
    /// The policy of the initial clone.
    pub fn for_clone() -> (r: CredentialPolicy)
        ensures
            r == CredentialPolicy::SshKeyThenDefault,
    {
        CredentialPolicy::SshKeyThenDefault
    }

    /// The policy of the periodic fetch.
    pub fn for_pull() -> (r: CredentialPolicy)
        ensures
            r == CredentialPolicy::DefaultOnly,
    {
        CredentialPolicy::DefaultOnly
    }

    /// Chooses the credentials to offer a remote, given whether it accepts key
    /// authentication, the user name in its URL and the home directory.
    pub fn select(&self, ssh_key_allowed: bool, username_from_url: Option<&str>, home: Option<
        String,
    >) -> (r: Result<Credential, CredentialError>)
        ensures
            *self == CredentialPolicy::DefaultOnly || !ssh_key_allowed ==> r == Ok::<
                Credential,
                CredentialError,
            >(Credential::Default),
            *self == CredentialPolicy::SshKeyThenDefault && ssh_key_allowed && home is None ==> r
                == Err::<Credential, CredentialError>(CredentialError::NoHomeDirectory),
            *self == CredentialPolicy::SshKeyThenDefault && ssh_key_allowed && home is Some ==> (
            r matches Ok(Credential::SshKey { username, home: h }) && h@ == home->0@
                && username@ == (match username_from_url {
                Some(u) => u@,
                None => "git"@,
            })),
    {
        match self {
            CredentialPolicy::DefaultOnly => Ok(Credential::Default),
            CredentialPolicy::SshKeyThenDefault => {
                if !ssh_key_allowed {
                    Ok(Credential::Default)
                } else {
                    match home {
                        None => Err(CredentialError::NoHomeDirectory),
                        Some(h) => {
                            let username = match username_from_url {
                                Some(u) => String::from_str(u),
                                None => String::from_str(default_username()),
                            };
                            Ok(Credential::SshKey { username, home: h })
                        },
                    }
                }
            },
        }
    }
}

} // verus!
