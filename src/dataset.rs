//! The registry table bundled with the library.
use vstd::prelude::*;

verus! {

/// A snapshot of well-known entries of the IANA Service Name and Transport
/// Protocol Port Number Registry, in the registry's own CSV layout.
pub const DEFAULT_CSV: &'static str = "Service Name,Port Number,Transport Protocol,Description,Assignee,Contact,Registration Date,Modification Date,Reference,Service Code,Unauthorized Use Reported,Assignment Notes
,0,tcp,Reserved,[Jon_Postel],[Jon_Postel],,,,,,
,0,udp,Reserved,[Jon_Postel],[Jon_Postel],,,,,,
tcpmux,1,tcp,TCP Port Service Multiplexer,[Mark_Lottor],[Mark_Lottor],,,,,,
tcpmux,1,udp,TCP Port Service Multiplexer,[Mark_Lottor],[Mark_Lottor],,,,,,
echo,7,tcp,Echo,[Jon_Postel],[Jon_Postel],,,,,,
echo,7,udp,Echo,[Jon_Postel],[Jon_Postel],,,,,,
discard,9,tcp,Discard,[Jon_Postel],[Jon_Postel],,,,,,
discard,9,udp,Discard,[Jon_Postel],[Jon_Postel],,,,,,
discard,9,sctp,Discard,[Randall_Stewart],[Randall_Stewart],,,[RFC4960],,,
discard,9,dccp,Discard,[Eddie_Kohler],[Eddie_Kohler],,,[RFC4340],1145656131,,
ftp-data,20,tcp,File Transfer [Default Data],[Jon_Postel],[Jon_Postel],,,,,,
ftp-data,20,udp,File Transfer [Default Data],[Jon_Postel],[Jon_Postel],,,,,,
ftp,21,tcp,File Transfer Protocol [Control],[Jon_Postel],[Jon_Postel],,,[RFC959],,,\"Defined TXT keys: u=<username> p=<password> path=<path>\"
ftp,21,udp,File Transfer Protocol [Control],[Jon_Postel],[Jon_Postel],,,[RFC959],,,
ssh,22,tcp,The Secure Shell (SSH) Protocol,,,,,[RFC4251],,,
ssh,22,udp,The Secure Shell (SSH) Protocol,,,,,[RFC4251],,,
telnet,23,tcp,Telnet,[Jon_Postel],[Jon_Postel],,,[RFC854],,,
telnet,23,udp,Telnet,[Jon_Postel],[Jon_Postel],,,[RFC854],,,
smtp,25,tcp,Simple Mail Transfer,[IESG],[IETF_Chair],,2017-06-05,[RFC5321],,,
smtp,25,udp,Simple Mail Transfer,[IESG],[IETF_Chair],,2017-06-05,[RFC5321],,,
domain,53,tcp,Domain Name Server,[Paul_Mockapetris],[Paul_Mockapetris],,,[RFC1034][RFC1035],,,
domain,53,udp,Domain Name Server,[Paul_Mockapetris],[Paul_Mockapetris],,,[RFC1034][RFC1035],,,
http,80,tcp,World Wide Web HTTP,,,,,[RFC9110],,,\"Defined TXT keys: u=<username> p=<password> path=<path to document>\"
http,80,udp,World Wide Web HTTP,,,,,[RFC9110],,,\"Defined TXT keys: u=<username> p=<password> path=<path to document>\"
www,80,tcp,World Wide Web HTTP,,,,,[RFC9110],,,
www,80,udp,World Wide Web HTTP,,,,,[RFC9110],,,
www-http,80,tcp,World Wide Web HTTP,[Tim_Berners_Lee],[Tim_Berners_Lee],,,,,,
www-http,80,udp,World Wide Web HTTP,[Tim_Berners_Lee],[Tim_Berners_Lee],,,,,,
http,80,sctp,HTTP,[Randall_Stewart],[Randall_Stewart],,,[RFC4960],,,
pop3,110,tcp,Post Office Protocol - Version 3,[Marshall_Rose],[Marshall_Rose],,,,,,
pop3,110,udp,Post Office Protocol - Version 3,[Marshall_Rose],[Marshall_Rose],,,,,,
ntp,123,tcp,Network Time Protocol,[Dave_Mills],[Dave_Mills],,,[RFC5905],,,
ntp,123,udp,Network Time Protocol,[Dave_Mills],[Dave_Mills],,,[RFC5905],,,
imap,143,tcp,Internet Message Access Protocol,[Mark_Crispin],[Mark_Crispin],,,[RFC9051],,,
imap,143,udp,Internet Message Access Protocol,[Mark_Crispin],[Mark_Crispin],,,[RFC9051],,,
snmp,161,tcp,SNMP,[Marshall_Rose],[Marshall_Rose],,,,,,
snmp,161,udp,SNMP,[Marshall_Rose],[Marshall_Rose],,,,,,
https,443,tcp,http protocol over TLS/SSL,[IESG],[IETF_Chair],,,[RFC9110],,,
https,443,udp,http protocol over TLS/SSL,[IESG],[IETF_Chair],,,[RFC9110],,,
https,443,sctp,HTTPS,[Randall_Stewart],[Randall_Stewart],,,[RFC4960],,,
,1021-1023,,Reserved,,,,,,,,
,1024,tcp,Reserved,[IANA],[IANA],,,,,,
,1024,udp,Reserved,[IANA],[IANA],,,,,,
ms-sql-s,1433,tcp,Microsoft-SQL-Server,[Microsoft],[Microsoft],,,,,,
ms-sql-s,1433,udp,Microsoft-SQL-Server,[Microsoft],[Microsoft],,,,,,
mysql,3306,tcp,MySQL,[Oracle],[Oracle],,,,,,
mysql,3306,udp,MySQL,[Oracle],[Oracle],,,,,,
postgresql,5432,tcp,PostgreSQL Database,[Tom_Lane],[Tom_Lane],,,,,,
postgresql,5432,udp,PostgreSQL Database,[Tom_Lane],[Tom_Lane],,,,,,
http-alt,8080,tcp,HTTP Alternate (see port 80),[Stephen_Casner],[Stephen_Casner],,,,,,
http-alt,8080,udp,HTTP Alternate (see port 80),[Stephen_Casner],[Stephen_Casner],,,,,,
,49152-65535,,Unassigned,,,,,,,,
";

} // verus!
