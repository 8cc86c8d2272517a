//! The stack templates that are embedded in the program.
//!
//! A template is an opaque document to this library: the embedded bytes are
//! decoded into text, and nothing is read out of them.

use vstd::prelude::*;
use vstd::utf8::{decode_utf8, valid_utf8};
use crate::action::StackKind;

verus! {

/// Path under which the template of the fleet stack is embedded.
pub const ASG_UBUNTU_YAML_PATH: &'static str = "src/aws/cfn-templates/asg_ubuntu.yaml";

/// Path under which the template of the role stack is embedded.
pub const EC2_INSTANCE_ROLE_YAML_PATH: &'static str = "src/aws/cfn-templates/ec2_instance_role.yaml";

/// Path under which the template of the network stack is embedded.
pub const VPC_YAML_PATH: &'static str = "src/aws/cfn-templates/vpc.yaml";

/// The embedded file that is not text.
#[derive(Clone, Copy, Debug, PartialEq, Eq, Structural)]
pub struct NotText {
    pub template: StackKind,
}

/// The text of a template: what its bytes decode to, where they are valid
/// UTF-8.
pub open spec fn template_text(kind: StackKind, data: Seq<u8>) -> Result<Seq<char>, NotText> {
    if valid_utf8(data) {
        Ok(decode_utf8(data))
    } else {
        Err(NotText { template: kind })
    }
}

/// A decoded template by its characters.
pub open spec fn text_view(r: Result<String, NotText>) -> Result<Seq<char>, NotText> {
    match r {
        Ok(text) => Ok(text@),
        Err(e) => Err(e),
    }
}

/// Calls `std::str::from_utf8`: the text that the bytes encode, where they
/// are valid UTF-8, and nothing where they are not.
#[verifier::external_body]
fn decode(data: &[u8]) -> (text: Option<String>)
    ensures
        text is Some <==> valid_utf8(data@),
        text is Some ==> text->0@ == decode_utf8(data@),
{
    match std::str::from_utf8(data) {
        Ok(s) => Some(s.to_string()),
        Err(_) => None,
    }
}

/// Path under which the template of a stack is embedded.
pub fn template_path(kind: StackKind) -> (path: &'static str)
    ensures
        path@ == match kind {
            StackKind::Asg => ASG_UBUNTU_YAML_PATH@,
            StackKind::Ec2InstanceRole => EC2_INSTANCE_ROLE_YAML_PATH@,
            StackKind::Vpc => VPC_YAML_PATH@,
        },
{
    match kind {
        StackKind::Asg => ASG_UBUNTU_YAML_PATH,
        StackKind::Ec2InstanceRole => EC2_INSTANCE_ROLE_YAML_PATH,
        StackKind::Vpc => VPC_YAML_PATH,
    }
}

/// Decodes the embedded template of a stack.
pub fn template_of(kind: StackKind, data: &[u8]) -> (r: Result<String, NotText>)
    ensures
        text_view(r) == template_text(kind, data@),
{
    match decode(data) {
        Some(text) => Ok(text),
        None => Err(NotText { template: kind }),
    }
}

/// The template of the fleet stack, from the bytes embedded under
/// `ASG_UBUNTU_YAML_PATH`.
pub fn asg_ubuntu_yaml(data: &[u8]) -> (r: Result<String, NotText>)
    ensures
        text_view(r) == template_text(StackKind::Asg, data@),
{
    template_of(StackKind::Asg, data)
}

/// The template of the role stack, from the bytes embedded under
/// `EC2_INSTANCE_ROLE_YAML_PATH`.
pub fn ec2_instance_role_yaml(data: &[u8]) -> (r: Result<String, NotText>)
    ensures
        text_view(r) == template_text(StackKind::Ec2InstanceRole, data@),
{
    template_of(StackKind::Ec2InstanceRole, data)
}

/// The template of the network stack, from the bytes embedded under
/// `VPC_YAML_PATH`.
pub fn vpc_yaml(data: &[u8]) -> (r: Result<String, NotText>)
    ensures
        text_view(r) == template_text(StackKind::Vpc, data@),
{
    template_of(StackKind::Vpc, data)
}

} // verus!
