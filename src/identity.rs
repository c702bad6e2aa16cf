use vstd::prelude::*;

verus! {

/// `cert_`
pub open spec fn cert_prefix() -> Seq<u8> {
    seq![99u8, 101u8, 114u8, 116u8, 95u8]
}

/// `.pem`
pub open spec fn pem_suffix() -> Seq<u8> {
    seq![46u8, 112u8, 101u8, 109u8]
}

/// A file of the certificate store that holds an identity: `cert_<name>.pem`.
pub open spec fn is_identity_file(s: Seq<u8>) -> bool {
    &&& s.len() >= 9
    &&& s.take(5) == cert_prefix()
    &&& s.skip(s.len() - 4) == pem_suffix()
}

/// The `<name>` of `cert_<name>.pem`.
pub open spec fn identity_name_of(s: Seq<u8>) -> Seq<u8> {
    s.subrange(5, s.len() - 4)
}

/// The identity name that a file of the certificate store holds, or `None` where the file
/// is no identity.
pub fn identity_name(file_name: &[u8]) -> (r: Option<Vec<u8>>)
    ensures
        r is Some <==> is_identity_file(file_name@),
        r matches Some(n) ==> n@ == identity_name_of(file_name@),
{
    let ghost s = file_name@;
    let n = file_name.len();
    if n < 9 {
        return None;
    }
    let prefix = file_name[0] == 99 && file_name[1] == 101 && file_name[2] == 114
        && file_name[3] == 116 && file_name[4] == 95;
    let suffix = file_name[n - 4] == 46 && file_name[n - 3] == 112 && file_name[n - 2] == 101
        && file_name[n - 1] == 109;
    let ghost head = s.take(5);
    let ghost tail = s.skip(n - 4);
    if prefix && suffix {
        assert(head =~= cert_prefix());
        assert(tail =~= pem_suffix());
        Some(vstd::slice::slice_to_vec(vstd::slice::slice_subrange(file_name, 5, n - 4)))
    } else {
        if !prefix {
            assert(head[0] != 99 || head[1] != 101 || head[2] != 114 || head[3] != 116 || head[4]
                != 95);
        } else {
            assert(tail[0] != 46 || tail[1] != 112 || tail[2] != 101 || tail[3] != 109);
        }
        None
    }
}

} // verus!
