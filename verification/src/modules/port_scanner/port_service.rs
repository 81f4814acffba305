//! The service that most likely runs behind a TCP port, after the list of
//! well-known and registered ports. Ports behind which one of several
//! services may run, such as 5000 or 8000, are left out on purpose.
use vstd::prelude::*;

verus! {

/// The name of the service of a port, `unknown` where the list has none.
pub open spec fn service_of(port: usize) -> Seq<char> {
    match port {
        21 => "ftp"@,
        22 => "ssh"@,
        23 => "telnet"@,
        25 => "smtp"@,
        43 => "whois"@,
        53 => "dns"@,
        70 => "gopher"@,
        80 => "http"@,
        88 => "kerberos-auth"@,
        110 => "pop3"@,
        115 => "sftp"@,
        143 => "imap"@,
        389 => "ldap"@,
        443 => "https"@,
        464 => "kerberos-password"@,
        631 => "cups"@,
        749 => "kerberos-admin"@,
        990 => "ftps"@,
        993 => "imaps"@,
        995 => "pop3s"@,
        1194 => "openvpn"@,
        1476 => "wifi-pineapple"@,
        2082 => "cpanel"@,
        2456 => "valheim"@,
        3306 => "mysql"@,
        3389 => "rdp"@,
        4200 => "angular"@,
        4444 => "metasploit"@,
        5432 => "postgresql"@,
        5900 => "vnc"@,
        6379 => "redis"@,
        6660 => "irc"@,
        6661 => "irc"@,
        6662 => "irc"@,
        6663 => "irc"@,
        6664 => "irc"@,
        6665 => "irc"@,
        6666 => "irc"@,
        6667 => "irc"@,
        6668 => "irc"@,
        6669 => "irc"@,
        8080 => "http-proxy"@,
        8443 => "https"@,
        25565 => "minecraft"@,
        _ => "unknown"@,
    }
}

pub fn get_service_for_tcp_port(port: usize) -> (r: String)
    ensures
        r@ == service_of(port),
{
    match port {
        21 => String::from_str("ftp"),
        22 => String::from_str("ssh"),
        23 => String::from_str("telnet"),
        25 => String::from_str("smtp"),
        43 => String::from_str("whois"),
        53 => String::from_str("dns"),
        70 => String::from_str("gopher"),
        80 => String::from_str("http"),
        88 => String::from_str("kerberos-auth"),
        110 => String::from_str("pop3"),
        115 => String::from_str("sftp"),
        143 => String::from_str("imap"),
        389 => String::from_str("ldap"),
        443 => String::from_str("https"),
        464 => String::from_str("kerberos-password"),
        631 => String::from_str("cups"),
        749 => String::from_str("kerberos-admin"),
        990 => String::from_str("ftps"),
        993 => String::from_str("imaps"),
        995 => String::from_str("pop3s"),
        1194 => String::from_str("openvpn"),
        1476 => String::from_str("wifi-pineapple"),
        2082 => String::from_str("cpanel"),
        2456 => String::from_str("valheim"),
        3306 => String::from_str("mysql"),
        3389 => String::from_str("rdp"),
        4200 => String::from_str("angular"),
        4444 => String::from_str("metasploit"),
        5432 => String::from_str("postgresql"),
        5900 => String::from_str("vnc"),
        6379 => String::from_str("redis"),
        6660 => String::from_str("irc"),
        6661 => String::from_str("irc"),
        6662 => String::from_str("irc"),
        6663 => String::from_str("irc"),
        6664 => String::from_str("irc"),
        6665 => String::from_str("irc"),
        6666 => String::from_str("irc"),
        6667 => String::from_str("irc"),
        6668 => String::from_str("irc"),
        6669 => String::from_str("irc"),
        8080 => String::from_str("http-proxy"),
        8443 => String::from_str("https"),
        25565 => String::from_str("minecraft"),
        _ => String::from_str("unknown"),
    }
}

} // verus!
