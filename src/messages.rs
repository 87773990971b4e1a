use vstd::prelude::*;
use crate::text::same_text;

verus! {

/// What the user interface asks for, by the name it sends.
#[derive(Clone, Copy, Debug, PartialEq, Eq, Structural)]
pub enum Request {
    Button,
    Menu,
    RequestImage,
    RequestRoot,
    RequestConnecting,
    ChangeRoot,
    UpdateIso,
    UpdateAv,
    UpdateTv,
    CreateProcess,
    SelectProcess,
    RequestProcesses,
    RequestCalibrations,
    Unknown,
}

pub open spec fn request_of(name: Seq<char>) -> Request {
    if name == "button"@ {
        Request::Button
    } else if name == "menu"@ {
        Request::Menu
    } else if name == "request_img"@ {
        Request::RequestImage
    } else if name == "request_root"@ {
        Request::RequestRoot
    } else if name == "request_connecting"@ {
        Request::RequestConnecting
    } else if name == "change_root"@ {
        Request::ChangeRoot
    } else if name == "update_iso"@ {
        Request::UpdateIso
    } else if name == "update_av"@ {
        Request::UpdateAv
    } else if name == "update_tv"@ {
        Request::UpdateTv
    } else if name == "create_process"@ {
        Request::CreateProcess
    } else if name == "select_process"@ {
        Request::SelectProcess
    } else if name == "request_processes"@ {
        Request::RequestProcesses
    } else if name == "request_caribrations"@ {
        Request::RequestCalibrations
    } else {
        Request::Unknown
    }
}

/// The request that a message name from the user interface stands for.
pub fn decode_request(name: &str) -> (r: Request)
    ensures
        r == request_of(name@),
{
    if same_text(name, "button") {
        Request::Button
    } else if same_text(name, "menu") {
        Request::Menu
    } else if same_text(name, "request_img") {
        Request::RequestImage
    } else if same_text(name, "request_root") {
        Request::RequestRoot
    } else if same_text(name, "request_connecting") {
        Request::RequestConnecting
    } else if same_text(name, "change_root") {
        Request::ChangeRoot
    } else if same_text(name, "update_iso") {
        Request::UpdateIso
    } else if same_text(name, "update_av") {
        Request::UpdateAv
    } else if same_text(name, "update_tv") {
        Request::UpdateTv
    } else if same_text(name, "create_process") {
        Request::CreateProcess
    } else if same_text(name, "select_process") {
        Request::SelectProcess
    } else if same_text(name, "request_processes") {
        Request::RequestProcesses
    } else if same_text(name, "request_caribrations") {
        Request::RequestCalibrations
    } else {
        Request::Unknown
    }
}

/// A call of the script function `func` with one string argument `arg`.
pub open spec fn call_text(func: Seq<char>, arg: Seq<char>) -> Seq<char> {
    func + "(\""@ + arg + "\")"@
}

fn call_script(func: &str, arg: &str) -> (r: String)
    ensures
        r@ == call_text(func@, arg@),
{
    let mut s = String::from_str(func);
    s.append("(\"");
    s.append(arg);
    s.append("\")");
    s
}

/// The script that shows an error with a title and a message.
pub fn error_script(title: &str, message: &str) -> (r: String)
    ensures
        r@ == "error_msg(\""@ + title@ + "\", \""@ + message@ + "\")"@,
{
    let mut s = String::from_str("error_msg(\"");
    s.append(title);
    s.append("\", \"");
    s.append(message);
    s.append("\")");
    s
}

/// `s` with every backslash doubled, so that it reads back as `s` inside a
/// script string literal.
pub open spec fn escape_backslashes(s: Seq<char>) -> Seq<char>
    decreases s.len(),
{
    if s.len() == 0 {
        Seq::empty()
    } else if s.last() == '\\' {
        escape_backslashes(s.drop_last()) + seq!['\\', '\\']
    } else {
        escape_backslashes(s.drop_last()).push(s.last())
    }
}

/// Doubles every backslash of `s`.
pub fn escape_path(s: &str) -> (r: String)
    ensures
        r@ == escape_backslashes(s@),
{
    let n = s.unicode_len();
    let mut out = String::new();
    let mut i: usize = 0;
    while i < n
        invariant
            i <= n == s@.len(),
            out@ == escape_backslashes(s@.take(i as int)),
        decreases n - i,
    {
        let c = s.get_char(i);
        assert(s@.take(i + 1).drop_last() =~= s@.take(i as int));
        if c == '\\' {
            out.append("\\\\");
            proof {
                reveal_strlit("\\\\");
            }
            assert("\\\\"@ =~= seq!['\\', '\\']);
        } else {
            let one = s.substring_char(i, i + 1);
            out.append(one);
            assert(one@ =~= seq![c]);
        }
        i = i + 1;
    }
    assert(s@.take(n as int) =~= s@);
    out
}

/// The script that shows the project's root directory.
pub fn root_script(root_path: &str) -> (r: String)
    ensures
        r@ == call_text("set_root"@, escape_backslashes(root_path@)),
{
    let escaped = escape_path(root_path);
    call_script("set_root", escaped.as_str())
}

/// The script that shows the state of the camera connection.
pub fn connection_script(description: &str) -> (r: String)
    ensures
        r@ == call_text("set_connection"@, description@),
{
    call_script("set_connection", description)
}

/// `"p1","p2",...`: each path in double quotes, separated by commas.
pub open spec fn quoted_list(paths: Seq<Seq<char>>) -> Seq<char>
    decreases paths.len(),
{
    if paths.len() == 0 {
        Seq::empty()
    } else if paths.len() == 1 {
        "\""@ + paths[0] + "\""@
    } else {
        quoted_list(paths.drop_last()) + ","@ + "\""@ + paths.last() + "\""@
    }
}

/// The script that shows the list of process directories.
pub fn process_list_script(paths: &Vec<String>) -> (r: String)
    ensures
        r@ == call_text(
            "set_process_list"@,
            "["@ + quoted_list(paths@.map_values(|p: String| p@)) + "]"@,
        ),
{
    let ghost views = paths@.map_values(|p: String| p@);
    let mut list = String::new();
    let mut i: usize = 0;
    while i < paths.len()
        invariant
            i <= paths@.len(),
            views == paths@.map_values(|p: String| p@),
            list@ == quoted_list(views.take(i as int)),
        decreases paths@.len() - i,
    {
        assert(views.take(i + 1).drop_last() =~= views.take(i as int));
        if i > 0 {
            list.append(",");
        }
        list.append("\"");
        list.append(paths[i].as_str());
        list.append("\"");
        proof {
            if i == 0 {
                assert(views.take(1)[0] == paths@[0]@);
                assert(list@ =~= quoted_list(views.take(1)));
            } else {
                assert(views.take(i + 1).last() == paths@[i as int]@);
                assert(list@ =~= quoted_list(views.take(i + 1)));
            }
        }
        i = i + 1;
    }
    assert(views.take(paths@.len() as int) =~= views);
    let mut arg = String::from_str("[");
    arg.append(list.as_str());
    arg.append("]");
    call_script("set_process_list", arg.as_str())
}

/// The standard base64 text (with padding) of a byte string.
pub uninterp spec fn base64_of(bytes: Seq<u8>) -> Seq<char>;

/// Relies on base64::encode (base64 0.13): the standard-alphabet, padded encoding,
/// which depends on the bytes alone and is four characters for each started group
/// of three bytes (`encoded_size` with padding). It panics only where the encoded length would
/// overflow `usize`, which the bound on the input rules out.
#[verifier::external_body]
fn encode_base64(bytes: &[u8]) -> (r: String)
    requires
        bytes@.len() <= usize::MAX / 2,
    ensures
        r@ == base64_of(bytes@),
        r@.len() == 4 * ((bytes@.len() + 2) / 3),
{
    base64::encode(bytes)
}

/// The script that hands an image to the script function `func`, as base64 text.
pub fn image_script(func: &str, image: &[u8]) -> (r: String)
    requires
        image@.len() <= usize::MAX / 2,
    ensures
        r@ == call_text(func@, base64_of(image@)),
        base64_of(image@).len() == 4 * ((image@.len() + 2) / 3),
{
    let encoded = encode_base64(image);
    call_script(func, encoded.as_str())
}

} // verus!
