use tex_shooter::messages::{
    connection_script, decode_request, error_script, escape_path, image_script, process_list_script,
    root_script, Request,
};

#[test]
fn request_names() {
    assert_eq!(decode_request("button"), Request::Button);
    assert_eq!(decode_request("update_iso"), Request::UpdateIso);
    assert_eq!(decode_request("update_av"), Request::UpdateAv);
    assert_eq!(decode_request("update_tv"), Request::UpdateTv);
    assert_eq!(decode_request("request_caribrations"), Request::RequestCalibrations);
    assert_eq!(decode_request("request_processes"), Request::RequestProcesses);
    assert_eq!(decode_request("Update_iso"), Request::Unknown);
    assert_eq!(decode_request(""), Request::Unknown);
}

#[test]
fn error_script_text() {
    assert_eq!(error_script("failed", "no dir"), "error_msg(\"failed\", \"no dir\")");
}

#[test]
fn root_script_doubles_backslashes() {
    assert_eq!(escape_path("C:\\a\\b"), "C:\\\\a\\\\b");
    assert_eq!(root_script("C:\\shots"), "set_root(\"C:\\\\shots\")");
    assert_eq!(root_script("/home/u"), "set_root(\"/home/u\")");
}

#[test]
fn connection_script_text() {
    assert_eq!(connection_script("disconnecting"), "set_connection(\"disconnecting\")");
}

#[test]
fn process_list_script_text() {
    let none: Vec<String> = Vec::new();
    assert_eq!(process_list_script(&none), "set_process_list(\"[]\")");
    let one = vec!["/p/a".to_string()];
    assert_eq!(process_list_script(&one), "set_process_list(\"[\"/p/a\"]\")");
    let two = vec!["/p/a".to_string(), "/p/b".to_string()];
    assert_eq!(process_list_script(&two), "set_process_list(\"[\"/p/a\",\"/p/b\"]\")");
}

#[test]
fn image_script_encodes_base64() {
    assert_eq!(image_script("set_albedo", b"hello"), "set_albedo(\"aGVsbG8=\")");
    assert_eq!(image_script("f", &[0xff, 0x00]), "f(\"/wA=\")");
    assert_eq!(image_script("f", &[]), "f(\"\")");
    let out = image_script("g", &[1, 2, 3, 4]);
    assert_eq!(out.len(), "g(\"\")".len() + 8);
}
